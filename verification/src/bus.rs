//! The in-memory message bus: a set of channels, each found by its id.
//! A write stores the message in the channel it names (when that channel
//! exists and accepts it); a read gives the channel's latest or previous
//! message.

use vstd::prelude::*;
use crate::channel::{BusMessageChannel, ChannelView};
use crate::error::{ChannelAccess, IronbirdError};
use crate::keyed::{keyed_map, keys_distinct, lemma_keyed_map_at, lemma_keyed_map_push, lemma_keyed_map_update};
use crate::message::{is_signal_spec, str_equal, OpaqueBusMessage, Signal};

verus! {

/// In-memory message bus managing several channels, no two with the same id.
#[derive(Debug)]
pub struct Bus {
    channels: Vec<BusMessageChannel>,
}

/// A channel is found by its id.
pub open spec fn channel_key() -> spec_fn(BusMessageChannel) -> Seq<char> {
    |c: BusMessageChannel| c@.id
}

/// What a channel holds.
pub open spec fn channel_value() -> spec_fn(BusMessageChannel) -> ChannelView {
    |c: BusMessageChannel| c@
}

impl View for Bus {
    type V = Map<Seq<char>, ChannelView>;

    closed spec fn view(&self) -> Map<Seq<char>, ChannelView> {
        keyed_map(self.channels@, channel_key(), channel_value())
    }
}

impl Default for Bus {
    /// A bus with no channels.
    fn default() -> (bus: Bus)
        ensures
            bus@ == Map::<Seq<char>, ChannelView>::empty(),
    {
        Bus::new()
    }
}

impl Bus {
    /// The bus's invariant: channel ids are distinct.
    #[verifier::type_invariant]
    spec fn inv(&self) -> bool {
        keys_distinct(self.channels@, channel_key())
    }

    /// Makes a bus with no channels.
    pub fn new() -> (bus: Bus)
        ensures
            bus@ == Map::<Seq<char>, ChannelView>::empty(),
    {
        let bus = Bus { channels: Vec::new() };
        assert(bus@ =~= Map::<Seq<char>, ChannelView>::empty());
        bus
    }

    /// The position of the channel with the given id, if there is one.
    fn find(&self, channel_id: &str) -> (found: Option<usize>)
        ensures
            match found {
                Some(i) => i < self.channels@.len() && self.channels@[i as int]@.id == channel_id@
                    && self@.contains_key(channel_id@)
                    && self@[channel_id@] == self.channels@[i as int]@,
                None => !self@.contains_key(channel_id@),
            },
    {
        proof {
            use_type_invariant(self);
        }
        let mut i: usize = 0;
        while i < self.channels.len()
            invariant
                i <= self.channels@.len(),
                keys_distinct(self.channels@, channel_key()),
                forall|j: int| 0 <= j < i ==> #[trigger] self.channels@[j]@.id != channel_id@,
            decreases self.channels@.len() - i,
        {
            if str_equal(self.channels[i].id(), channel_id) {
                proof {
                    lemma_keyed_map_at(self.channels@, channel_key(), channel_value(), i as int);
                }
                return Some(i);
            }
            i = i + 1;
        }
        proof {
            if self@.contains_key(channel_id@) {
                let j = choose|j: int|
                    0 <= j < self.channels@.len() && channel_key()(#[trigger] self.channels@[j])
                        == channel_id@;
                assert(self.channels@[j]@.id != channel_id@);
            }
        }
        None
    }

    /// Adds a channel for signals of type `T` under the given id. Fails,
    /// leaving the bus as it was, when a channel with that id already exists.
    pub fn add_new_channel<T: Signal>(&mut self, channel_id: String) -> (result: Result<(), IronbirdError>)
        ensures
            result is Err <==> old(self)@.contains_key(channel_id@),
            result matches Err(e) ==> final(self)@ == old(self)@ && e == (
            IronbirdError::ChannelAlreadyExists { channel_id }),
            result is Ok ==> {
                &&& final(self)@ == old(self)@.insert(channel_id@, final(self)@[channel_id@])
                &&& final(self)@[channel_id@].id == channel_id@
                &&& final(self)@[channel_id@].is_fresh()
                &&& is_signal_spec::<T>(final(self)@[channel_id@].message_spec)
            },
    {
        proof {
            use_type_invariant(&*self);
        }
        if self.find(channel_id.as_str()).is_some() {
            return Err(IronbirdError::ChannelAlreadyExists { channel_id });
        }
        let new_channel = BusMessageChannel::new::<T>(channel_id);
        let mut channels = Vec::new();
        std::mem::swap(&mut channels, &mut self.channels);
        proof {
            lemma_keyed_map_push(channels@, channel_key(), channel_value(), new_channel);
        }
        channels.push(new_channel);
        self.channels = channels;
        Ok(())
    }

    /// Writes `data` to the channel with the given id. Fails, leaving the
    /// bus as it was, when there is no such channel or when the channel does
    /// not accept the data's spec.
    pub fn write_latest_to_channel(&mut self, channel_id: &str, data: OpaqueBusMessage) -> (result: Result<(), IronbirdError>)
        requires
            old(self)@.contains_key(channel_id@) && old(self)@[channel_id@].accepts(data)
                ==> old(self)@[channel_id@].num_writes < u32::MAX,
        ensures
            result is Ok <==> old(self)@.contains_key(channel_id@) && old(self)@[channel_id@].accepts(data),
            result is Ok ==> final(self)@ == old(self)@.insert(
                channel_id@,
                old(self)@[channel_id@].after_write(data),
            ),
            result is Err ==> final(self)@ == old(self)@,
            result matches Err(e) ==> if old(self)@.contains_key(channel_id@) {
                e == (IronbirdError::MessageSpecMismatch {
                    expected: old(self)@[channel_id@].message_spec,
                    actual: data.message_spec,
                })
            } else {
                e.is_channel_not_found(channel_id@, ChannelAccess::Write)
            },
    {
        proof {
            use_type_invariant(&*self);
        }
        match self.find(channel_id) {
            Some(i) => {
                let mut channels = Vec::new();
                std::mem::swap(&mut channels, &mut self.channels);
                let ghost before = channels@;
                let result = channels[i].write(data);
                proof {
                    lemma_keyed_map_update(before, channel_key(), channel_value(), i as int, channels@[i as int]);
                    assert(channels@ == before.update(i as int, channels@[i as int]));
                }
                self.channels = channels;
                result
            },
            None => Err(IronbirdError::ChannelNotFound { channel_id: channel_id.to_owned(), access: ChannelAccess::Write }),
        }
    }

    /// The latest message on the channel with the given id (`None` when
    /// nothing has been written to it). Fails when there is no such channel.
    pub fn read_current_from_channel(&self, channel_id: &str) -> (result: Result<Option<&OpaqueBusMessage>, IronbirdError>)
        ensures
            result is Err <==> !self@.contains_key(channel_id@),
            result matches Err(e) ==> e.is_channel_not_found(channel_id@, ChannelAccess::Read),
            result matches Ok(latest) ==> match latest {
                Some(m) => self@[channel_id@].current == Some(*m)
                    && m.message_spec@ == self@[channel_id@].message_spec@,
                None => self@[channel_id@].current is None,
            },
    {
        match self.find(channel_id) {
            Some(i) => Ok(self.channels[i].read()),
            None => Err(IronbirdError::ChannelNotFound { channel_id: channel_id.to_owned(), access: ChannelAccess::Read }),
        }
    }

    /// The message written just before the latest one on the channel with
    /// the given id (`None` when there is none). Fails when there is no such
    /// channel.
    pub fn read_prev_from_channel(&self, channel_id: &str) -> (result: Result<Option<&OpaqueBusMessage>, IronbirdError>)
        ensures
            result is Err <==> !self@.contains_key(channel_id@),
            result matches Err(e) ==> e.is_channel_not_found(channel_id@, ChannelAccess::Read),
            result matches Ok(previous) ==> match previous {
                Some(m) => self@[channel_id@].prev == Some(*m)
                    && m.message_spec@ == self@[channel_id@].message_spec@,
                None => self@[channel_id@].prev is None,
            },
    {
        match self.find(channel_id) {
            Some(i) => Ok(self.channels[i].read_prev()),
            None => Err(IronbirdError::ChannelNotFound { channel_id: channel_id.to_owned(), access: ChannelAccess::Read }),
        }
    }

    /// The number of messages written so far to the channel with the given
    /// id, or `None` when there is no such channel.
    pub fn num_writes_of_channel(&self, channel_id: &str) -> (count: Option<u32>)
        ensures
            count is None <==> !self@.contains_key(channel_id@),
            count matches Some(n) ==> n == self@[channel_id@].num_writes,
    {
        match self.find(channel_id) {
            Some(i) => Some(self.channels[i].num_writes()),
            None => None,
        }
    }
}

/// Law: a write taken by the bus changes the channel it names and no other;
/// no channel appears or disappears.
pub proof fn law_write_touches_only_its_channel(
    bus: Map<Seq<char>, ChannelView>,
    channel_id: Seq<char>,
    data: OpaqueBusMessage,
    other_id: Seq<char>,
)
    requires
        bus.contains_key(channel_id),
        other_id != channel_id,
    ensures
        bus.insert(channel_id, bus[channel_id].after_write(data)).dom() == bus.dom(),
        bus.contains_key(other_id) ==> bus.insert(channel_id, bus[channel_id].after_write(data))[other_id]
            == bus[other_id],
{
    assert(bus.insert(channel_id, bus[channel_id].after_write(data)).dom() =~= bus.dom());
}

/// Law: after a write taken by the bus, reading the channel's latest message
/// gives what was written and reading its previous message gives what was
/// latest before.
pub proof fn law_bus_read_after_write(
    bus: Map<Seq<char>, ChannelView>,
    channel_id: Seq<char>,
    data: OpaqueBusMessage,
)
    requires
        bus.contains_key(channel_id),
        bus[channel_id].accepts(data),
    ensures
        bus.insert(channel_id, bus[channel_id].after_write(data))[channel_id].current == Some(data),
        bus.insert(channel_id, bus[channel_id].after_write(data))[channel_id].prev
            == bus[channel_id].current,
{
}

} // verus!
