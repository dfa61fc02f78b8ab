//! A single bus channel: where published data is stored. A channel is made
//! for one signal type and from then on accepts only messages whose spec is
//! that type's spec. It keeps the latest message and the one before it.

use vstd::prelude::*;
use crate::error::IronbirdError;
use crate::message::{is_signal_spec, MessageSpec, OpaqueBusMessage, Signal};

verus! {

/// A type-erased channel used for orchestration. Each channel supports a
/// single signal type at run time, fixed when it is made.
#[derive(Debug)]
pub struct BusMessageChannel {
    id: String,
    current: Option<OpaqueBusMessage>,
    prev: Option<OpaqueBusMessage>,
    num_writes: u32,
    message_spec: MessageSpec,
}

/// What a channel holds, for contracts.
pub ghost struct ChannelView {
    pub id: Seq<char>,
    pub current: Option<OpaqueBusMessage>,
    pub prev: Option<OpaqueBusMessage>,
    pub num_writes: nat,
    pub message_spec: MessageSpec,
}

impl ChannelView {
    /// A channel that nothing has been written to yet.
    pub open spec fn is_fresh(self) -> bool {
        &&& self.current is None
        &&& self.prev is None
        &&& self.num_writes == 0
    }

    /// The channel takes `data`: its spec is the channel's spec.
    pub open spec fn accepts(self, data: OpaqueBusMessage) -> bool {
        data.message_spec@ == self.message_spec@
    }

    /// Every message the channel holds has the channel's spec: a channel
    /// carries a single signal type.
    pub open spec fn holds_only_own_spec(self) -> bool {
        &&& (self.current matches Some(m) ==> m.message_spec@ == self.message_spec@)
        &&& (self.prev matches Some(m) ==> m.message_spec@ == self.message_spec@)
    }

    /// The channel after `data` was written to it: the latest message moves
    /// to `prev`, `data` becomes the latest, and one more write is counted.
    pub open spec fn after_write(self, data: OpaqueBusMessage) -> ChannelView {
        ChannelView {
            current: Some(data),
            prev: self.current,
            num_writes: self.num_writes + 1,
            ..self
        }
    }
}

impl View for BusMessageChannel {
    type V = ChannelView;

    closed spec fn view(&self) -> ChannelView {
        ChannelView {
            id: self.id@,
            current: self.current,
            prev: self.prev,
            num_writes: self.num_writes as nat,
            message_spec: self.message_spec,
        }
    }
}

impl BusMessageChannel {
    /// The channel's invariant: it holds only messages of its own spec.
    #[verifier::type_invariant]
    spec fn inv(&self) -> bool {
        self@.holds_only_own_spec()
    }

    /// Makes an empty channel with the given id for signals of type `T`:
    /// only messages with `T`'s spec can be written to it.
    pub fn new<T: Signal>(id: String) -> (channel: BusMessageChannel)
        ensures
            channel@.id == id@,
            channel@.is_fresh(),
            channel@.holds_only_own_spec(),
            is_signal_spec::<T>(channel@.message_spec),
    {
        BusMessageChannel {
            id,
            current: None,
            prev: None,
            num_writes: 0,
            message_spec: T::message_spec(),
        }
    }

    /// Publishes `data` to the channel, which takes ownership of it. Fails,
    /// leaving the channel as it was, when the data's spec is not the
    /// channel's.
    pub fn write(&mut self, data: OpaqueBusMessage) -> (result: Result<(), IronbirdError>)
        requires
            old(self)@.accepts(data) ==> old(self)@.num_writes < u32::MAX,
        ensures
            final(self)@.holds_only_own_spec(),
            result is Ok <==> old(self)@.accepts(data),
            result is Ok ==> final(self)@ == old(self)@.after_write(data),
            result matches Err(e) ==> final(self)@ == old(self)@ && e == (
            IronbirdError::MessageSpecMismatch {
                expected: old(self)@.message_spec,
                actual: data.message_spec,
            }),
    {
        proof {
            use_type_invariant(&*self);
        }
        if !(data.message_spec == self.message_spec) {
            return Err(
                IronbirdError::MessageSpecMismatch {
                    expected: self.message_spec,
                    actual: data.message_spec,
                },
            );
        }
        let mut latest = Some(data);
        std::mem::swap(&mut latest, &mut self.current);
        self.prev = latest;
        self.num_writes = self.num_writes + 1;
        Ok(())
    }

    /// The latest message written to the channel, if any.
    pub fn read(&self) -> (latest: Option<&OpaqueBusMessage>)
        ensures
            match latest {
                Some(m) => self@.current == Some(*m) && m.message_spec@ == self@.message_spec@,
                None => self@.current is None,
            },
    {
        proof {
            use_type_invariant(self);
        }
        self.current.as_ref()
    }

    /// The message written just before the latest one, if any.
    pub fn read_prev(&self) -> (previous: Option<&OpaqueBusMessage>)
        ensures
            match previous {
                Some(m) => self@.prev == Some(*m) && m.message_spec@ == self@.message_spec@,
                None => self@.prev is None,
            },
    {
        proof {
            use_type_invariant(self);
        }
        self.prev.as_ref()
    }

    /// The channel's id.
    pub fn id(&self) -> (id: &str)
        ensures
            id@ == self@.id,
    {
        self.id.as_str()
    }

    /// The number of messages written to the channel so far.
    pub fn num_writes(&self) -> (count: u32)
        ensures
            count == self@.num_writes,
    {
        self.num_writes
    }
}

/// Law: writes never change a channel's id nor which messages it accepts:
/// a channel carries one signal type for its whole life.
pub proof fn law_write_keeps_channel_type(
    channel: ChannelView,
    data: OpaqueBusMessage,
    other: OpaqueBusMessage,
)
    ensures
        channel.after_write(data).id == channel.id,
        channel.after_write(data).message_spec == channel.message_spec,
        channel.after_write(data).accepts(other) == channel.accepts(other),
{
}

/// Law: a write taken by a channel that holds only messages of its own spec
/// leaves it holding only messages of that spec, under an unchanged spec.
pub proof fn law_write_keeps_held_specs(channel: ChannelView, data: OpaqueBusMessage)
    requires
        channel.holds_only_own_spec(),
        channel.accepts(data),
    ensures
        channel.after_write(data).holds_only_own_spec(),
        channel.after_write(data).message_spec == channel.message_spec,
{
}

/// Law: after two writes the first is the previous message, the second the
/// latest, and both are counted.
pub proof fn law_two_writes(channel: ChannelView, first: OpaqueBusMessage, second: OpaqueBusMessage)
    ensures
        channel.after_write(first).after_write(second).prev == Some(first),
        channel.after_write(first).after_write(second).current == Some(second),
        channel.after_write(first).after_write(second).num_writes == channel.num_writes + 2,
{
}

/// Law: a single write to a fresh channel leaves nothing as the previous
/// message.
pub proof fn law_first_write_has_no_prev(channel: ChannelView, data: OpaqueBusMessage)
    requires
        channel.is_fresh(),
    ensures
        channel.after_write(data).current == Some(data),
        channel.after_write(data).prev is None,
        channel.after_write(data).num_writes == 1,
{
}

} // verus!
