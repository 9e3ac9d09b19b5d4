//! The topics a message can carry, and their 16-bit wire codes.

use vstd::prelude::*;

verus! {

/// What a message is about.
#[derive(Debug, Clone, Copy, PartialEq, Eq, Structural)]
pub enum Topic {
    Handshake,
    InitializeContext,
    DestroyContext,
    GetState,
    AuthCommand,
    SyncCommand,
    EnvironmentCommand,
    RuntimeEvent,
    Shutdown,
}

/// The wire code of each topic.
pub open spec fn topic_code(t: Topic) -> u16 {
    match t {
        Topic::Handshake => 0x0100,
        Topic::InitializeContext => 0x0101,
        Topic::DestroyContext => 0x0102,
        Topic::GetState => 0x0103,
        Topic::AuthCommand => 0x0200,
        Topic::SyncCommand => 0x0300,
        Topic::EnvironmentCommand => 0x0400,
        Topic::RuntimeEvent => 0x0500,
        Topic::Shutdown => 0xFFFF,
    }
}

/// The topic a wire code stands for; a code that names no topic reads as `Shutdown`.
pub open spec fn topic_of_code(v: u16) -> Topic {
    if v == 0x0100 { Topic::Handshake }
    else if v == 0x0101 { Topic::InitializeContext }
    else if v == 0x0102 { Topic::DestroyContext }
    else if v == 0x0103 { Topic::GetState }
    else if v == 0x0200 { Topic::AuthCommand }
    else if v == 0x0300 { Topic::SyncCommand }
    else if v == 0x0400 { Topic::EnvironmentCommand }
    else if v == 0x0500 { Topic::RuntimeEvent }
    else { Topic::Shutdown }
}

impl Topic {
    /// The wire code of this topic.
    pub fn code(self) -> (v: u16)
        ensures
            v == topic_code(self),
    {
        match self {
            Topic::Handshake => 0x0100,
            Topic::InitializeContext => 0x0101,
            Topic::DestroyContext => 0x0102,
            Topic::GetState => 0x0103,
            Topic::AuthCommand => 0x0200,
            Topic::SyncCommand => 0x0300,
            Topic::EnvironmentCommand => 0x0400,
            Topic::RuntimeEvent => 0x0500,
            Topic::Shutdown => 0xFFFF,
        }
    }

    /// The topic of a wire code; unknown codes read as `Shutdown`.
    pub fn from_code(v: u16) -> (t: Topic)
        ensures
            t == topic_of_code(v),
    {
        match v {
            0x0100 => Topic::Handshake,
            0x0101 => Topic::InitializeContext,
            0x0102 => Topic::DestroyContext,
            0x0103 => Topic::GetState,
            0x0200 => Topic::AuthCommand,
            0x0300 => Topic::SyncCommand,
            0x0400 => Topic::EnvironmentCommand,
            0x0500 => Topic::RuntimeEvent,
            0xFFFF => Topic::Shutdown,
            _ => Topic::Shutdown,
        }
    }
}

impl From<Topic> for u16 {
    fn from(t: Topic) -> (v: u16) {
        t.code()
    }
}

impl vstd::std_specs::convert::FromSpecImpl<Topic> for u16 {
    open spec fn obeys_from_spec() -> bool {
        true
    }

    open spec fn from_spec(t: Topic) -> u16 {
        topic_code(t)
    }
}

impl From<u16> for Topic {
    fn from(v: u16) -> (t: Topic) {
        Topic::from_code(v)
    }
}

impl vstd::std_specs::convert::FromSpecImpl<u16> for Topic {
    open spec fn obeys_from_spec() -> bool {
        true
    }

    open spec fn from_spec(v: u16) -> Topic {
        topic_of_code(v)
    }
}

/// The wire code of each topic, and the topic each code reads as.
pub proof fn lemma_topic_wire_codes()
    ensures
        topic_code(Topic::Handshake) == 0x0100,
        topic_code(Topic::InitializeContext) == 0x0101,
        topic_code(Topic::DestroyContext) == 0x0102,
        topic_code(Topic::GetState) == 0x0103,
        topic_code(Topic::AuthCommand) == 0x0200,
        topic_code(Topic::SyncCommand) == 0x0300,
        topic_code(Topic::EnvironmentCommand) == 0x0400,
        topic_code(Topic::RuntimeEvent) == 0x0500,
        topic_code(Topic::Shutdown) == 0xFFFF,
        topic_of_code(0x0100) == Topic::Handshake,
        topic_of_code(0x0101) == Topic::InitializeContext,
        topic_of_code(0x0102) == Topic::DestroyContext,
        topic_of_code(0x0103) == Topic::GetState,
        topic_of_code(0x0200) == Topic::AuthCommand,
        topic_of_code(0x0300) == Topic::SyncCommand,
        topic_of_code(0x0400) == Topic::EnvironmentCommand,
        topic_of_code(0x0500) == Topic::RuntimeEvent,
        topic_of_code(0xFFFF) == Topic::Shutdown,
        forall|v: u16|
            v != 0x0100 && v != 0x0101 && v != 0x0102 && v != 0x0103 && v != 0x0200 && v != 0x0300
                && v != 0x0400 && v != 0x0500 ==> #[trigger] topic_of_code(v) == Topic::Shutdown,
{
}

/// Reading back the code of a topic gives the same topic.
pub proof fn lemma_topic_code_roundtrip(t: Topic)
    ensures
        topic_of_code(topic_code(t)) == t,
{
}

/// A code that names a topic is the code of the topic it reads as.
pub proof fn lemma_known_code_roundtrip(v: u16)
    requires
        v == 0x0100 || v == 0x0101 || v == 0x0102 || v == 0x0103 || v == 0x0200
            || v == 0x0300 || v == 0x0400 || v == 0x0500 || v == 0xFFFF,
    ensures
        topic_code(topic_of_code(v)) == v,
{
}

} // verus!
