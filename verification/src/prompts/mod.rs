//! Prompt registry, descriptor list, and dispatch decisions.
//!
//! Prompts are registered into a [`PromptRegistry`] built once at startup
//! and frozen afterwards. A prompt absent from the registry is uninvokable;
//! asking for an unknown name is a validation error on `name`.
use vstd::prelude::*;
use crate::context::AdapterContext;
use crate::error::{is_validation, AdapterError};
use crate::registry::{lookup, sorted_by_name, Named, NameIndex};
use crate::text::{owned, push_str};

pub mod daily_options_summary;
pub mod funding_snapshot;
pub mod position_review;

verus! {

/// One argument a prompt accepts.
#[derive(Debug, Clone, PartialEq, Eq)]
pub struct PromptArgument {
    /// Argument name.
    pub name: String,
    /// Description shown to the client.
    pub description: Option<String>,
    /// Whether the argument is required.
    pub required: Option<bool>,
}

/// What `prompts/list` shows of a prompt.
#[derive(Debug, Clone, PartialEq, Eq)]
pub struct PromptDescriptor {
    /// Prompt name.
    pub name: String,
    /// Description shown to the client.
    pub description: Option<String>,
    /// Accepted arguments.
    pub arguments: Option<Vec<PromptArgument>>,
}

/// Which renderer (and which argument type) a prompt has.
#[derive(Debug, Clone, Copy, PartialEq, Eq, Structural)]
pub enum PromptKind {
    /// `daily_options_summary`.
    DailyOptionsSummary,
    /// `funding_snapshot`.
    FundingSnapshot,
    /// `position_review`.
    PositionReview,
}

/// One registered prompt: its descriptor and renderer.
#[derive(Debug, Clone, PartialEq, Eq)]
pub struct PromptEntry {
    /// Descriptor returned by `prompts/list`.
    pub descriptor: PromptDescriptor,
    /// Renderer.
    pub kind: PromptKind,
}

impl Named for PromptEntry {
    open spec fn name_of(&self) -> Seq<char> {
        self.descriptor.name@
    }

    fn name(&self) -> (r: &str) {
        self.descriptor.name.as_str()
    }
}

impl PromptEntry {
    /// Descriptor returned by `prompts/list`.
    pub fn descriptor(&self) -> (r: &PromptDescriptor)
        ensures
            *r == self.descriptor,
    {
        &self.descriptor
    }
}

/// Who speaks a prompt message.
#[derive(Debug, Clone, Copy, PartialEq, Eq, Structural)]
pub enum PromptRole {
    /// The user.
    User,
    /// The assistant.
    Assistant,
}

/// One rendered prompt message.
#[derive(Debug, Clone, PartialEq, Eq)]
pub struct PromptMessage {
    /// Speaker.
    pub role: PromptRole,
    /// Text content.
    pub text: String,
}

/// A rendered prompt: a user message that names the tools to run and pins
/// the output shape, followed by the assistant's acknowledgement.
#[derive(Debug, Clone, PartialEq, Eq)]
pub struct PromptResult {
    /// Description of the rendered prompt.
    pub description: String,
    /// Messages, in order.
    pub messages: Vec<PromptMessage>,
}

/// `r` is the two-message result with these texts.
pub open spec fn is_prompt_result(
    r: PromptResult,
    description: Seq<char>,
    user: Seq<char>,
    assistant: Seq<char>,
) -> bool {
    &&& r.description@ == description
    &&& r.messages@.len() == 2
    &&& r.messages@[0].role == PromptRole::User
    &&& r.messages@[0].text@ == user
    &&& r.messages@[1].role == PromptRole::Assistant
    &&& r.messages@[1].text@ == assistant
}

/// Build the two-message result.
pub fn two_messages(description: String, user: String, assistant: String) -> (r: PromptResult)
    ensures
        is_prompt_result(r, description@, user@, assistant@),
{
    let mut messages: Vec<PromptMessage> = Vec::new();
    messages.push(PromptMessage { role: PromptRole::User, text: user });
    messages.push(PromptMessage { role: PromptRole::Assistant, text: assistant });
    PromptResult { description, messages }
}

fn clone_argument(a: &PromptArgument) -> (r: PromptArgument)
    ensures
        r == *a,
{
    PromptArgument {
        name: a.name.clone(),
        description: match &a.description {
            Some(d) => Some(d.clone()),
            None => None,
        },
        required: a.required,
    }
}

/// The arguments of a descriptor, by their view.
pub open spec fn arguments_view(a: Option<Vec<PromptArgument>>) -> Option<Seq<PromptArgument>> {
    match a {
        Some(v) => Some(v@),
        None => None,
    }
}

/// Two descriptors with the same name, description and arguments.
pub open spec fn same_descriptor(a: PromptDescriptor, b: PromptDescriptor) -> bool {
    a.name == b.name && a.description == b.description && arguments_view(a.arguments)
        == arguments_view(b.arguments)
}

fn clone_descriptor(d: &PromptDescriptor) -> (r: PromptDescriptor)
    ensures
        same_descriptor(r, *d),
{
    let arguments = match &d.arguments {
        None => None,
        Some(args) => {
            let n = args.len();
            let mut out: Vec<PromptArgument> = Vec::new();
            let mut i: usize = 0;
            while i < n
                invariant
                    n == args@.len(),
                    i <= n,
                    out@ == args@.take(i as int),
                decreases n - i,
            {
                out.push(clone_argument(&args[i]));
                i = i + 1;
                assert(out@ =~= args@.take(i as int));
            }
            assert(args@.take(n as int) =~= args@);
            assert(out@ == args@);
            Some(out)
        },
    };
    PromptDescriptor {
        name: d.name.clone(),
        description: match &d.description {
            Some(x) => Some(x.clone()),
            None => None,
        },
        arguments,
    }
}

/// Build an argument descriptor.
pub fn argument(name: &str, description: &str, required: bool) -> (r: PromptArgument)
    ensures
        r.name@ == name@,
        r.description matches Some(d) && d@ == description@,
        r.required == Some(required),
{
    PromptArgument {
        name: owned(name),
        description: Some(owned(description)),
        required: Some(required),
    }
}

/// `d` is named `name`, described by `description`, and takes the two
/// arguments `(name, description, required)` in this order.
pub open spec fn is_descriptor(
    d: PromptDescriptor,
    name: Seq<char>,
    description: Seq<char>,
    first: (Seq<char>, Seq<char>, bool),
    second: (Seq<char>, Seq<char>, bool),
) -> bool {
    &&& d.name@ == name
    &&& d.description matches Some(x) && x@ == description
    &&& d.arguments matches Some(args) && args@.len() == 2 && is_argument(args@[0], first)
        && is_argument(args@[1], second)
}

/// `a` has this name, description and required flag.
pub open spec fn is_argument(a: PromptArgument, facts: (Seq<char>, Seq<char>, bool)) -> bool {
    &&& a.name@ == facts.0
    &&& a.description matches Some(x) && x@ == facts.1
    &&& a.required == Some(facts.2)
}

/// Registry of the prompts the server exposes.
pub struct PromptRegistry {
    entries: NameIndex<PromptEntry>,
}

/// The message of the unknown-prompt error.
pub open spec fn unknown_prompt_message(n: Seq<char>) -> Seq<char> {
    "prompt `"@ + n + "` is not registered"@
}

impl PromptRegistry {
    /// The registered entries, in ascending name order.
    pub closed spec fn entries(self) -> Seq<PromptEntry> {
        self.entries.entries()
    }

    /// An empty registry.
    pub fn new() -> (r: PromptRegistry)
        ensures
            r.entries() == Seq::<PromptEntry>::empty(),
    {
        PromptRegistry { entries: NameIndex::new() }
    }

    /// Build the registry for a given context: the three prompts
    /// `daily_options_summary`, `funding_snapshot` and `position_review`,
    /// and nothing else. (`position_review` answers with a warning when the
    /// context has no credentials.)
    pub fn build(_ctx: &AdapterContext) -> (r: PromptRegistry)
        ensures
            r.entries().len() == 3,
            lookup(r.entries(), "daily_options_summary"@) matches Some(e)
                && daily_options_summary::is_daily_descriptor(e.descriptor) && e.kind
                == PromptKind::DailyOptionsSummary,
            lookup(r.entries(), "funding_snapshot"@) matches Some(e)
                && funding_snapshot::is_funding_descriptor(e.descriptor) && e.kind
                == PromptKind::FundingSnapshot,
            lookup(r.entries(), "position_review"@) matches Some(e)
                && position_review::is_position_descriptor(e.descriptor) && e.kind
                == PromptKind::PositionReview,
            forall|n: Seq<char>|
                n != "daily_options_summary"@ && n != "funding_snapshot"@ && n
                    != "position_review"@ ==> #[trigger] lookup(r.entries(), n) is None,
    {
        proof {
            reveal_strlit("daily_options_summary");
            reveal_strlit("funding_snapshot");
            reveal_strlit("position_review");
        }
        let ghost d = "daily_options_summary"@;
        let ghost f = "funding_snapshot"@;
        let ghost p = "position_review"@;
        assert(d.len() == 21 && f.len() == 16 && p.len() == 15);
        let mut registry = PromptRegistry::new();
        assert(lookup(registry.entries(), d) is None);
        assert(lookup(registry.entries(), f) is None);
        assert(lookup(registry.entries(), p) is None);
        daily_options_summary::register(&mut registry);
        assert(lookup(registry.entries(), f) is None);
        assert(lookup(registry.entries(), p) is None);
        funding_snapshot::register(&mut registry);
        assert(lookup(registry.entries(), p) is None);
        position_review::register(&mut registry);
        assert(lookup(registry.entries(), f) matches Some(e) && funding_snapshot::is_funding_descriptor(
            e.descriptor,
        ));
        registry
    }

    /// Insert a prompt; returns the entry previously registered under the
    /// same name.
    pub(crate) fn insert(&mut self, entry: PromptEntry) -> (r: Option<PromptEntry>)
        ensures
            r == lookup(old(self).entries(), entry.name_of()),
            forall|n: Seq<char>| #[trigger]
                lookup(final(self).entries(), n) == if n == entry.name_of() {
                    Some(entry)
                } else {
                    lookup(old(self).entries(), n)
                },
            final(self).entries().len() == old(self).entries().len() + if r is Some {
                0int
            } else {
                1int
            },
            sorted_by_name(final(self).entries()),
    {
        self.entries.insert(entry)
    }

    /// The descriptors of all prompts, sorted by name (the `prompts/list`
    /// answer).
    pub fn list(&self) -> (r: Vec<PromptDescriptor>)
        ensures
            r@.len() == self.entries().len(),
            forall|i: int|
                0 <= i < r@.len() ==> same_descriptor(#[trigger] r@[i], self.entries()[i].descriptor),
            forall|i: int, j: int|
                0 <= i < j < r@.len() ==> crate::text::seq_less(r@[i].name@, r@[j].name@),
    {
        let n = self.entries.len();
        let mut out: Vec<PromptDescriptor> = Vec::new();
        let mut i: usize = 0;
        while i < n
            invariant
                n == self.entries.entries().len(),
                sorted_by_name(self.entries.entries()),
                i <= n,
                out@.len() == i,
                forall|k: int|
                    0 <= k < i ==> same_descriptor(#[trigger] out@[k], self.entries.entries()[k].descriptor),
            decreases n - i,
        {
            let e = self.entries.at(i);
            out.push(clone_descriptor(&e.descriptor));
            i = i + 1;
        }
        proof {
            assert forall|i: int, j: int| 0 <= i < j < out@.len() implies crate::text::seq_less(
                out@[i].name@,
                out@[j].name@,
            ) by {
                let s = self.entries.entries();
                assert(same_descriptor(out@[i], s[i].descriptor));
                assert(same_descriptor(out@[j], s[j].descriptor));
                assert(s[i].name_of() == s[i].descriptor.name@);
                assert(s[j].name_of() == s[j].descriptor.name@);
                assert(crate::text::seq_less(s[i].name_of(), s[j].name_of()));
            }
        }
        out
    }

    /// Number of registered prompts.
    pub fn len(&self) -> (r: usize)
        ensures
            r == self.entries().len(),
    {
        self.entries.len()
    }

    /// Whether no prompt is registered.
    pub fn is_empty(&self) -> (r: bool)
        ensures
            r == (self.entries().len() == 0),
    {
        self.entries.len() == 0
    }

    /// Whether a prompt with this name is registered.
    pub fn contains(&self, name: &str) -> (r: bool)
        ensures
            r == lookup(self.entries(), name@) is Some,
    {
        self.entries.get(name).is_some()
    }

    /// The entry registered under `name`.
    pub fn get_entry(&self, name: &str) -> (r: Option<&PromptEntry>)
        ensures
            match r {
                Some(e) => lookup(self.entries(), name@) == Some(*e),
                None => lookup(self.entries(), name@) is None,
            },
    {
        self.entries.get(name)
    }

    /// Route a `prompts/get`: the entry whose renderer the binary must run.
    ///
    /// # Errors
    ///
    /// A validation error on `name` when no prompt is registered under it.
    pub fn route(&self, name: &str) -> (r: Result<&PromptEntry, AdapterError>)
        ensures
            match lookup(self.entries(), name@) {
                None => r matches Err(e) && is_validation(
                    e,
                    "name"@,
                    unknown_prompt_message(name@),
                ),
                Some(entry) => r == Ok::<&PromptEntry, AdapterError>(&entry),
            },
    {
        match self.entries.get(name) {
            Some(e) => Ok(e),
            None => {
                let mut message = owned("prompt `");
                push_str(&mut message, name);
                push_str(&mut message, "` is not registered");
                Err(AdapterError::validation("name", message))
            },
        }
    }
}

} // verus!
