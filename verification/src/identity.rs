//! Who is observed: the resolver and the identity tags.
//!
//! The resolver turns a request for the calling process or for a pid into a
//! [`ProcessHandle`].  The identity tags are computed once, from the first
//! read of the process, and are never computed again.

use vstd::prelude::*;
use vstd::string::*;
use crate::attribute::{
    attribute_views, Attribute, AttributeKey, AttributeValueView, AttributeView, Direction,
};
use crate::error::ObserverError;

verus! {

/// A process that the resolver has found.
#[derive(Clone, Copy, Debug, PartialEq, Eq, Structural)]
pub struct ProcessHandle {
    pid: u32,
    resolved: bool,
}

impl ProcessHandle {
    /// The handle of a process that the resolver has found.
    pub closed spec fn confirmed(pid: u32) -> ProcessHandle {
        ProcessHandle { pid, resolved: true }
    }

    /// The process id.
    pub closed spec fn pid_value(self) -> u32 {
        self.pid
    }

    /// Whether the resolver has confirmed that the process exists.
    pub closed spec fn resolved(self) -> bool {
        self.resolved
    }

    /// The handle of a process that the resolver has found holds its pid,
    /// and is resolved.
    pub proof fn lemma_confirmed(pid: u32)
        ensures
            ProcessHandle::confirmed(pid).pid_value() == pid,
            ProcessHandle::confirmed(pid).resolved(),
    {
    }

    /// The process id.
    pub fn pid(&self) -> (pid: u32)
        ensures
            pid == self.pid_value(),
    {
        self.pid
    }

    /// Whether the resolver has confirmed that the process exists.
    pub fn is_resolved(&self) -> (resolved: bool)
        ensures
            resolved == self.resolved(),
    {
        self.resolved
    }
}

/// What the resolver makes of a pid: its handle where the pid is known and
/// the initial full snapshot holds it, and no process otherwise.
pub open spec fn resolution_of(pid: Option<u32>, listed: bool) -> Result<
    ProcessHandle,
    ObserverError,
> {
    match pid {
        Some(pid) => if listed {
            Ok(ProcessHandle::confirmed(pid))
        } else {
            Err(ObserverError::ProcessNotFound)
        },
        None => Err(ObserverError::ProcessNotFound),
    }
}

/// Resolves a pid against the initial full snapshot.
///
/// `listed` says whether that snapshot holds the pid.  A pid that it does not
/// hold is refused with [`ObserverError::ProcessNotFound`].
pub fn resolve(pid: u32, listed: bool) -> (resolution: Result<ProcessHandle, ObserverError>)
    ensures
        resolution == resolution_of(Some(pid), listed),
        listed ==> resolution is Ok,
        !listed ==> resolution == Err::<ProcessHandle, ObserverError>(
            ObserverError::ProcessNotFound,
        ),
        resolution matches Ok(handle) ==> handle.pid_value() == pid && handle.resolved(),
{
    if listed {
        Ok(ProcessHandle { pid, resolved: true })
    } else {
        Err(ObserverError::ProcessNotFound)
    }
}

/// Resolves the calling process.
///
/// `reported` is the pid that the operating system gives for the calling
/// process, if it gives one, and `listed` says whether the initial full
/// snapshot holds that pid.  Without a reported pid, or with one that the
/// snapshot does not hold, the result is [`ObserverError::ProcessNotFound`].
pub fn resolve_current(reported: Option<u32>, listed: bool) -> (resolution: Result<
    ProcessHandle,
    ObserverError,
>)
    ensures
        resolution == resolution_of(reported, listed),
        reported is Some && listed ==> resolution is Ok,
        reported is None || !listed ==> resolution == Err::<ProcessHandle, ObserverError>(
            ObserverError::ProcessNotFound,
        ),
        resolution matches Ok(handle) ==> reported == Some(handle.pid_value())
            && handle.resolved(),
{
    match reported {
        Some(pid) => resolve(pid, listed),
        None => Err(ObserverError::ProcessNotFound),
    }
}

/// What the first read of a process yields about its identity.  A part that
/// the operating system could not give as text is `None`.
#[derive(Clone, Debug, PartialEq, Eq)]
pub struct ProcessIdentity {
    /// The name of the executable.
    pub name: Option<String>,
    /// The path of the executable.
    pub path: Option<String>,
    /// The command line, argument by argument.
    pub command_line: Vec<Option<String>>,
}

/// What a [`ProcessIdentity`] stands for.
pub struct ProcessIdentityView {
    /// The name of the executable.
    pub name: Option<Seq<char>>,
    /// The path of the executable.
    pub path: Option<Seq<char>>,
    /// The command line, argument by argument.
    pub command_line: Seq<Option<Seq<char>>>,
}

/// The characters of a part of the identity, where the part is there.
pub open spec fn part_view(part: Option<String>) -> Option<Seq<char>> {
    match part {
        Some(text) => Some(text@),
        None => None,
    }
}

/// The characters of the arguments of a command line, in order.
pub open spec fn argument_views(arguments: Seq<Option<String>>) -> Seq<Option<Seq<char>>> {
    Seq::new(arguments.len(), |i: int| part_view(arguments[i]))
}

impl View for ProcessIdentity {
    type V = ProcessIdentityView;

    open spec fn view(&self) -> ProcessIdentityView {
        ProcessIdentityView {
            name: part_view(self.name),
            path: part_view(self.path),
            command_line: argument_views(self.command_line@),
        }
    }
}

/// The text of a part of the identity: empty where the part is missing.
pub open spec fn text_or_empty(part: Option<Seq<char>>) -> Seq<char> {
    match part {
        Some(text) => text,
        None => Seq::empty(),
    }
}

/// The command line as one text: each argument preceded by one space, an
/// argument that is missing counting as empty.
pub open spec fn joined_command(arguments: Seq<Option<Seq<char>>>) -> Seq<char>
    decreases arguments.len(),
{
    if arguments.len() == 0 {
        Seq::empty()
    } else {
        joined_command(arguments.drop_last()) + " "@ + text_or_empty(arguments.last())
    }
}

/// Joins a command line into one text.
///
/// Every argument is preceded by one space, so the text of a command line
/// that is not empty begins with a space.  An argument that is missing
/// contributes nothing but its space.
pub fn join_command(arguments: &Vec<Option<String>>) -> (command: String)
    ensures
        command@ == joined_command(argument_views(arguments@)),
{
    let ghost texts = argument_views(arguments@);
    let mut command = String::new();
    let mut index: usize = 0;
    while index < arguments.len()
        invariant
            index <= arguments.len(),
            texts == argument_views(arguments@),
            command@ == joined_command(texts.take(index as int)),
        decreases arguments.len() - index,
    {
        proof {
            let next = texts.take(index as int + 1);
            assert(next.drop_last() == texts.take(index as int));
            assert(next.last() == part_view(arguments@[index as int]));
        }
        command.append(" ");
        match &arguments[index] {
            Some(argument) => command.append(argument.as_str()),
            None => {},
        }
        index = index + 1;
    }
    proof {
        assert(texts.take(index as int) == texts);
    }
    command
}

/// The tags that identify the observed process.
///
/// They are built once, when a session starts, and there is no way to change
/// them afterwards.
#[derive(Debug, PartialEq, Eq)]
pub struct IdentityAttributes {
    pid: u32,
    executable_name: String,
    executable_path: String,
    command: String,
}

/// What an [`IdentityAttributes`] stands for.
pub struct IdentityView {
    /// The process id.
    pub pid: u32,
    /// The name of the executable, empty where it is unknown.
    pub executable_name: Seq<char>,
    /// The path of the executable, empty where it is unknown.
    pub executable_path: Seq<char>,
    /// The command line joined into one text.
    pub command: Seq<char>,
}

impl View for IdentityAttributes {
    type V = IdentityView;

    closed spec fn view(&self) -> IdentityView {
        IdentityView {
            pid: self.pid,
            executable_name: self.executable_name@,
            executable_path: self.executable_path@,
            command: self.command@,
        }
    }
}

/// The identity that a first read gives to a process.
pub open spec fn identity_of(pid: u32, reading: ProcessIdentityView) -> IdentityView {
    IdentityView {
        pid,
        executable_name: text_or_empty(reading.name),
        executable_path: text_or_empty(reading.path),
        command: joined_command(reading.command_line),
    }
}

/// The four identity tags, in the order in which they are reported.
pub open spec fn identity_tags(identity: IdentityView) -> Seq<AttributeView> {
    seq![
        AttributeView {
            key: AttributeKey::ProcessPid,
            value: AttributeValueView::Int(identity.pid as i64),
        },
        AttributeView {
            key: AttributeKey::ProcessExecutableName,
            value: AttributeValueView::Text(identity.executable_name),
        },
        AttributeView {
            key: AttributeKey::ProcessExecutablePath,
            value: AttributeValueView::Text(identity.executable_path),
        },
        AttributeView {
            key: AttributeKey::ProcessCommand,
            value: AttributeValueView::Text(identity.command),
        },
    ]
}

/// The identity tags followed by the `direction` tag.
pub open spec fn directed_tags(identity: IdentityView, direction: Direction) -> Seq<
    AttributeView,
> {
    identity_tags(identity).push(
        AttributeView {
            key: AttributeKey::Direction,
            value: AttributeValueView::Text(direction.label_text()),
        },
    )
}

/// Builds the identity tags from the first read of the process.
///
/// Without a reading there is no identity, and the result is
/// [`ObserverError::IdentityUnavailable`].  A reading that lacks the name,
/// the path or an argument still gives an identity, with an empty text in
/// that place.
pub fn build(handle: &ProcessHandle, reading: Option<&ProcessIdentity>) -> (built: Result<
    IdentityAttributes,
    ObserverError,
>)
    ensures
        reading is Some ==> built is Ok,
        reading is None ==> built == Err::<IdentityAttributes, ObserverError>(
            ObserverError::IdentityUnavailable,
        ),
        built matches Ok(identity) ==> reading is Some && identity@ == identity_of(
            handle.pid_value(),
            reading->0@,
        ),
{
    match reading {
        None => Err(ObserverError::IdentityUnavailable),
        Some(process) => {
            let executable_name = match &process.name {
                Some(name) => name.clone(),
                None => String::new(),
            };
            let executable_path = match &process.path {
                Some(path) => path.clone(),
                None => String::new(),
            };
            let command = join_command(&process.command_line);
            Ok(IdentityAttributes { pid: handle.pid(), executable_name, executable_path, command })
        },
    }
}

impl IdentityAttributes {
    /// The process id.
    pub fn pid(&self) -> (pid: u32)
        ensures
            pid == self@.pid,
    {
        self.pid
    }

    /// The name of the executable, empty where it is unknown.
    pub fn executable_name(&self) -> (name: &str)
        ensures
            name@ == self@.executable_name,
    {
        self.executable_name.as_str()
    }

    /// The path of the executable, empty where it is unknown.
    pub fn executable_path(&self) -> (path: &str)
        ensures
            path@ == self@.executable_path,
    {
        self.executable_path.as_str()
    }

    /// The command line joined into one text.
    pub fn command(&self) -> (command: &str)
        ensures
            command@ == self@.command,
    {
        self.command.as_str()
    }

    /// The four identity tags.
    pub fn tags(&self) -> (tags: Vec<Attribute>)
        ensures
            attribute_views(tags@) == identity_tags(self@),
    {
        let mut tags: Vec<Attribute> = Vec::new();
        tags.push(Attribute::number(AttributeKey::ProcessPid, self.pid as i64));
        tags.push(
            Attribute::text(AttributeKey::ProcessExecutableName, self.executable_name.as_str()),
        );
        tags.push(
            Attribute::text(AttributeKey::ProcessExecutablePath, self.executable_path.as_str()),
        );
        tags.push(Attribute::text(AttributeKey::ProcessCommand, self.command.as_str()));
        proof {
            assert(attribute_views(tags@) =~= identity_tags(self@));
        }
        tags
    }

    /// The identity tags followed by the `direction` tag.
    pub fn directed(&self, direction: Direction) -> (tags: Vec<Attribute>)
        ensures
            attribute_views(tags@) == directed_tags(self@, direction),
    {
        let mut tags = self.tags();
        let ghost before = tags@;
        tags.push(Attribute::text(AttributeKey::Direction, direction.label()));
        proof {
            assert(attribute_views(before) == identity_tags(self@));
            assert(attribute_views(tags@) =~= attribute_views(before).push(tags@.last()@));
        }
        tags
    }
}

} // verus!
