//! The eager pass: consumes every frame of a demo and collects the
//! header, the file info, the event stream, the player table and the
//! per-tick entity states.  Tick markers are verified to stay
//! monotonically non-decreasing across the collected event stream.

use crate::bitreader::Bitreader;
use crate::byteops::{bytes_eq, copy_bytes};
use crate::democmd::DemoCommand;
use crate::entities::{EntityContext, EntityFilter, EntityState};
use crate::fieldpath::{parse_paths, Paths};
use crate::frame::FrameIterator;
use crate::huffman::HuffmanTable;
use crate::packet::{
    lemma_push_non_tick, lemma_push_tick, ticks_bounded, ticks_mono, DemoEvent,
};
use crate::propcontroller::PropController;
use crate::protowire::EventListKey;
use crate::qfloat::QfMapper;
use crate::sendtables::Serializer;
use crate::values::UserId;
use vstd::prelude::*;

verus! {

/// Errors surfaced while decoding the demo stream.
#[derive(Debug)]
pub enum FirstPassError {
    /// A frame payload failed to decompress.
    DecompressFrame(crate::frame::FrameDecompressError),
    /// A frame that must carry data had none.
    NoDataFrame,
    /// An embedded protocol-buffer message was malformed.
    DecodeProtobuf(crate::protowire::ProtoError),
    /// The stream ended without a file-header frame.
    MissingFileHeader,
    /// The stream ended without a file-info frame.
    MissingFileInfo,
    /// A bit-level read failed.
    Bitreader(crate::bitreader::BitReadError),
    /// A game event carried a different number of values than its
    /// descriptor has keys.
    ParseGameEventError(crate::gameevent::ParseGameEventError),
    /// A field-path edit left the 7-deep path range, or a path entry
    /// would leave the non-negative range.
    MalformedPath,
    /// An entity update named an entity that was never created.
    UnknownEntity,
    /// An entity named a class the class-info frame did not establish.
    UnknownClass,
    /// A field path did not lead to a field of the entity's serializer.
    MissingField,
    /// A packet-entities delta moved the running entity id out of
    /// range.
    InvalidEntityTag,
    /// A quantised-float decoder referenced a descriptor that was never
    /// registered.
    UnknownDescriptor,
    /// The flattened-serializer message was inconsistent: a symbol or
    /// field index out of range, or an unparsable field type.
    MalformedSchema,
    /// A tick message moved backwards.
    NonMonotonicTick,
}

/// One player's end-of-match record.
#[derive(Debug, Clone)]
pub struct Player {
    pub xuid: u64,
    pub name: Vec<u8>,
    pub team: i32,
    pub color: i32,
}

/// The entity states of one tick.
#[derive(Debug)]
pub struct EntityTickStates {
    pub tick: u32,
    pub states: Vec<EntityState>,
}

/// Entity states grouped by tick, in stream order.
#[derive(Debug)]
pub struct EntityTickList {
    pub ticks: Vec<EntityTickStates>,
}

/// The buckets' ticks never decrease along the list.
pub open spec fn buckets_mono(ticks: Seq<EntityTickStates>) -> bool {
    forall|i: int, j: int|
        0 <= i <= j < ticks.len() ==> (#[trigger] ticks[i]).tick <= (#[trigger] ticks[j]).tick
}

/// The buckets' ticks strictly increase along the list: one bucket per
/// distinct tick.
pub open spec fn buckets_strict(ticks: Seq<EntityTickStates>) -> bool {
    forall|i: int, j: int|
        0 <= i < j < ticks.len() ==> (#[trigger] ticks[i]).tick < (#[trigger] ticks[j]).tick
}

impl EntityTickList {
    /// Starts with one empty bucket for tick zero; buckets are never
    /// removed.
    pub fn new() -> (r: EntityTickList)
        ensures
            r.ticks@.len() == 1,
            r.ticks@[0].tick == 0,
            r.ticks@[0].states@.len() == 0,
            buckets_mono(r.ticks@),
            buckets_strict(r.ticks@),
    {
        let mut ticks: Vec<EntityTickStates> = Vec::new();
        ticks.push(EntityTickStates { tick: 0, states: Vec::new() });
        EntityTickList { ticks }
    }

    /// Opens a new empty bucket; earlier buckets are kept as they are.
    pub fn new_tick(&mut self, n_tick: u32)
        ensures
            final (self).ticks@.len() == old(self).ticks@.len() + 1,
            forall|j: int|
                0 <= j < old(self).ticks@.len() ==> final (self).ticks@[j] == old(self).ticks@[j],
            final (self).ticks@.last().tick == n_tick,
            final (self).ticks@.last().states@.len() == 0,
    {
        self.ticks.push(EntityTickStates { tick: n_tick, states: Vec::new() });
    }

    /// Appends one state to the current bucket; every bucket's tick and
    /// the earlier buckets' states are kept.
    pub fn add_state(&mut self, state: EntityState)
        requires
            old(self).ticks@.len() >= 1,
        ensures
            final (self).ticks@.len() == old(self).ticks@.len(),
            forall|j: int|
                0 <= j < old(self).ticks@.len() - 1 ==> final (self).ticks@[j] == old(
                    self,
                ).ticks@[j],
            final (self).ticks@.last().tick == old(self).ticks@.last().tick,
            final (self).ticks@.last().states@ == old(self).ticks@.last().states@.push(state),
    {
        let last = self.ticks.len() - 1;
        let bucket = &mut self.ticks[last];
        bucket.states.push(state);
    }
}

/// The event-id to (name, keys) table built from the descriptor list.
pub struct GameEventMapping {
    pub mapping: Vec<(i32, (Vec<u8>, Vec<EventListKey>))>,
}

impl GameEventMapping {
    pub fn new() -> (r: GameEventMapping) {
        GameEventMapping { mapping: Vec::new() }
    }

    /// The descriptor registered for an event id, if any.
    pub fn find(&self, id: i32) -> (r: Option<&(Vec<u8>, Vec<EventListKey>)>) {
        let mut i: usize = 0;
        while i < self.mapping.len()
            invariant
                i <= self.mapping@.len(),
            decreases self.mapping@.len() - i,
        {
            if self.mapping[i].0 == id {
                return Some(&self.mapping[i].1);
            }
            i = i + 1;
        }
        None
    }
}

/// Everything one eager pass collects.
pub struct FirstPassOutput {
    pub header: crate::protowire::CDemoFileHeader,
    pub info: crate::protowire::CDemoFileInfo,
    pub events: Vec<DemoEvent>,
    pub player_info: Vec<(UserId, Player)>,
    pub entity_states: EntityTickList,
}

/// True when some frame of the stream carries the numeric command,
/// following the frame split to the end of the input.
pub open spec fn stream_has_cmd(data: Seq<u8>, cmd: i32) -> bool
    decreases data.len(),
    via stream_has_cmd_decreases
{
    if data.len() == 0 {
        false
    } else {
        match crate::frame::spec_frame_split(data) {
            None => false,
            Some(p) => (p.raw_cmd & !64u32) as i32 == cmd || stream_has_cmd(p.rest, cmd),
        }
    }
}

#[via_fn]
proof fn stream_has_cmd_decreases(data: Seq<u8>, cmd: i32) {
    if data.len() > 0 {
        if crate::frame::spec_frame_split(data) is Some {
            crate::frame::lemma_frame_split_rest(data);
        }
    }
}

/// Wraps bytes in a bit reader; a buffer too large for a bit cursor is
/// malformed.
pub(crate) fn new_reader(data: Vec<u8>) -> (r: Result<Bitreader, FirstPassError>)
    ensures
        r matches Ok(b) ==> b.wf() && b.pos == 0 && b.data@ == data@,
{
    if data.len() > usize::MAX / 8 {
        return Err(
            FirstPassError::Bitreader(crate::bitreader::BitReadError::MalformedMessage),
        );
    }
    Ok(Bitreader::new(data))
}

/// Decodes the paths of one entity update and then the update itself.
pub fn update_entity(
    table: &HuffmanTable,
    entity_id: i32,
    bitreader: &mut Bitreader,
    entity_ctx: &mut EntityContext,
    paths: &mut Paths,
    qf_mapper: &QfMapper,
    prop_controller: &PropController,
) -> (r: Result<Option<EntityState>, FirstPassError>)
    requires
        table.wf(),
        old(bitreader).wf(),
        forall|j: int| 0 <= j < qf_mapper.map@.len() ==> (#[trigger] qf_mapper.map@[j]).wf(),
    ensures
        final (bitreader).wf(),
        final (entity_ctx).filter == old(entity_ctx).filter,
        r matches Ok(opt) ==> ((opt is None) <==> !old(entity_ctx).filter.enabled),
{
    let n_updates = parse_paths(table, bitreader, paths)?;
    match entity_ctx.decode_entity_update(
        entity_id,
        bitreader,
        n_updates,
        paths,
        qf_mapper,
        prop_controller,
    )? {
        Some((_, state)) => Ok(Some(state)),
        None => Ok(None),
    }
}

/// Parses an unsigned decimal byte string, the way baseline keys are
/// read; anything else gives the maximum.
pub(crate) fn parse_u32_ascii(s: &[u8]) -> (r: u32) {
    if s.len() == 0 {
        return u32::MAX;
    }
    let mut value: u64 = 0;
    let mut i: usize = 0;
    while i < s.len()
        invariant
            i <= s@.len(),
            value <= 0xffff_ffff,
        decreases s@.len() - i,
    {
        let c = s[i];
        if c < 48 || c > 57 {
            return u32::MAX;
        }
        value = value * 10 + ((c - 48) as u64);
        if value > 0xffff_ffff {
            return u32::MAX;
        }
        i = i + 1;
    }
    value as u32
}

/// Replaces or inserts a baseline entry.
pub(crate) fn put_baseline(baselines: &mut Vec<(u32, Vec<u8>)>, key: u32, data: Vec<u8>) {
    let mut i: usize = 0;
    let n = baselines.len();
    while i < n
        invariant
            n == baselines@.len(),
            i <= n,
        decreases n - i,
    {
        if baselines[i].0 == key {
            baselines[i] = (key, data);
            return ;
        }
        i = i + 1;
    }
    baselines.push((key, data));
}

/// The baseline bytes registered for a class, if any.
fn get_baseline(baselines: &Vec<(u32, Vec<u8>)>, key: u32) -> (r: Option<&Vec<u8>>) {
    let mut i: usize = 0;
    while i < baselines.len()
        invariant
            i <= baselines@.len(),
        decreases baselines@.len() - i,
    {
        if baselines[i].0 == key {
            return Some(&baselines[i].1);
        }
        i = i + 1;
    }
    None
}

/// No two entries of the player table share a user id.
pub open spec fn players_unique(m: Seq<(UserId, Player)>) -> bool {
    forall|i: int, j: int| 0 <= i < j < m.len() ==> (#[trigger] m[i]).0 != (#[trigger] m[j]).0
}

/// Replaces or inserts a player record: the key ends up present exactly
/// once, bound to the given record, every other entry stays in place,
/// and a fresh key is appended at the end.
pub(crate) fn put_player(player_info: &mut Vec<(UserId, Player)>, key: UserId, player: Player)
    requires
        players_unique(old(player_info)@),
    ensures
        players_unique(final (player_info)@),
        exists|j: int|
            0 <= j < final (player_info)@.len() && final (player_info)@[j] == (key, player),
        forall|j: int|
            0 <= j < old(player_info)@.len() && (#[trigger] old(player_info)@[j]).0 != key
                ==> final (player_info)@[j] == old(player_info)@[j],
        (forall|j: int|
            0 <= j < old(player_info)@.len() ==> (#[trigger] old(player_info)@[j]).0 != key)
            ==> final (player_info)@ == old(player_info)@.push((key, player)),
        final (player_info)@.len() == old(player_info)@.len() || final (player_info)@.len()
            == old(player_info)@.len() + 1,
{
    let mut i: usize = 0;
    let n = player_info.len();
    while i < n
        invariant
            n == player_info@.len(),
            i <= n,
            player_info@ == old(player_info)@,
            players_unique(player_info@),
            forall|j: int| 0 <= j < i ==> (#[trigger] player_info@[j]).0 != key,
        decreases n - i,
    {
        if player_info[i].0 == key {
            player_info[i] = (key, player);
            proof {
                assert(player_info@ == old(player_info)@.update(i as int, (key, player)));
                assert(player_info@[i as int] == (key, player));
                assert forall|a: int, b: int|
                    0 <= a < b < player_info@.len() implies (#[trigger] player_info@[a]).0 != (
                #[trigger] player_info@[b]).0 by {
                    assert(old(player_info)@[a].0 == player_info@[a].0 || a == i);
                    assert(old(player_info)@[b].0 == player_info@[b].0 || b == i);
                }
            }
            return ;
        }
        i = i + 1;
    }
    player_info.push((key, player));
    proof {
        assert(player_info@[player_info@.len() - 1] == (key, player));
        assert forall|a: int, b: int|
            0 <= a < b < player_info@.len() implies (#[trigger] player_info@[a]).0 != (
        #[trigger] player_info@[b]).0 by {
            if b == old(player_info)@.len() {
                assert(player_info@[a] == old(player_info)@[a]);
            }
        }
    }
}

/// One event-bearing network message.  The eager pass and the lazy
/// event stream dispatch these message kinds through this one function,
/// so both yield the same events from the same bytes: the event-list
/// mapping refresh and the four event-producing messages.  Returns
/// whether the kind was one of those; any appended event is a non-tick
/// event and the stream before the call is kept as a prefix.
pub(crate) fn handle_event_message(
    net_msg_type: crate::netmessages::NetmessageType,
    msg_bytes: &Vec<u8>,
    events: &mut Vec<DemoEvent>,
    event_mapper: &mut GameEventMapping,
) -> (r: Result<bool, FirstPassError>)
    ensures
        final (events)@.len() >= old(events)@.len(),
        forall|i: int| 0 <= i < old(events)@.len() ==> final (events)@[i] == old(events)@[i],
        forall|i: int|
            old(events)@.len() <= i < final (events)@.len() ==> !crate::packet::is_tick(
                #[trigger] final (events)@[i],
            ),
        r == Ok::<bool, FirstPassError>(false) ==> *final (events) == *old(events)
            && *final (event_mapper) == *old(event_mapper),
{
    match net_msg_type {
        crate::netmessages::NetmessageType::GE_Source1LegacyGameEventList => {
            let event_list = crate::protowire::CsvcMsgGameEventList::parse(
                msg_bytes.as_slice(),
            ).map_err(|e| FirstPassError::DecodeProtobuf(e))?;
            event_mapper.mapping = Vec::new();
            let mut d: usize = 0;
            let descriptors = event_list.descriptors;
            let nd = descriptors.len();
            while d < nd
                invariant
                    nd == descriptors@.len(),
                    d <= nd,
                    events@ == old(events)@,
                decreases nd - d,
            {
                let desc = &descriptors[d];
                let mut keys: Vec<EventListKey> = Vec::new();
                let mut k: usize = 0;
                let nk = desc.keys.len();
                while k < nk
                    invariant
                        nk == desc.keys@.len(),
                        k <= nk,
                    decreases nk - k,
                {
                    keys.push(desc.keys[k].clone());
                    k = k + 1;
                }
                event_mapper.mapping.push(
                    (desc.eventid, (copy_bytes(desc.name.as_slice()), keys)),
                );
                d = d + 1;
            }
            Ok(true)
        },
        crate::netmessages::NetmessageType::svc_ServerInfo => {
            let raw = crate::protowire::CsvcMsgServerInfo::parse(msg_bytes.as_slice()).map_err(
                |e| FirstPassError::DecodeProtobuf(e),
            )?;
            events.push(DemoEvent::ServerInfo(Box::new(raw)));
            Ok(true)
        },
        crate::netmessages::NetmessageType::GE_Source1LegacyGameEvent => {
            let raw = crate::protowire::CMsgSource1LegacyGameEvent::parse(
                msg_bytes.as_slice(),
            ).map_err(|e| FirstPassError::DecodeProtobuf(e))?;
            match event_mapper.find(raw.eventid) {
                Some(entry) => {
                    match crate::gameevent::event_parser_for(entry.0.as_slice()) {
                        Some(parser) => {
                            let parsed = match parser.parse(entry.1.as_slice(), raw.keys) {
                                Ok(p) => p,
                                Err(e) => {
                                    return Err(FirstPassError::ParseGameEventError(e));
                                },
                            };
                            events.push(DemoEvent::GameEvent(Box::new(parsed)));
                        },
                        None => {
                            // Unknown event name: skipped, never fatal.
                        },
                    }
                },
                None => {
                    // Unknown event id: skipped, never fatal.
                },
            }
            Ok(true)
        },
        crate::netmessages::NetmessageType::CS_UM_ServerRankUpdate => {
            let raw = crate::protowire::CcsUsrMsgServerRankUpdate::parse(
                msg_bytes.as_slice(),
            ).map_err(|e| FirstPassError::DecodeProtobuf(e))?;
            events.push(DemoEvent::RankUpdate(Box::new(raw)));
            Ok(true)
        },
        crate::netmessages::NetmessageType::CS_UM_ServerRankRevealAll => {
            let raw = crate::protowire::CcsUsrMsgServerRankRevealAll::parse(
                msg_bytes.as_slice(),
            ).map_err(|e| FirstPassError::DecodeProtobuf(e))?;
            events.push(DemoEvent::RankReveal(Box::new(raw)));
            Ok(true)
        },
        _ => {
            // Accepted but not interpreted in-core.
            Ok(false)
        },
    }
}

/// Dispatches every network message inside one packet payload.
pub fn inner_parse_packet(
    table: &HuffmanTable,
    packet_data: &Vec<u8>,
    events: &mut Vec<DemoEvent>,
    event_mapper: &mut GameEventMapping,
    player_info: &mut Vec<(UserId, Player)>,
    entity_ctx: &mut EntityContext,
    paths: &mut Paths,
    qf_mapper: &QfMapper,
    baselines: &mut Vec<(u32, Vec<u8>)>,
    prop_controller: &PropController,
    entity_states: &mut EntityTickList,
    current_tick: &mut u32,
) -> (r: Result<(), FirstPassError>)
    requires
        table.wf(),
        forall|j: int| 0 <= j < qf_mapper.map@.len() ==> (#[trigger] qf_mapper.map@[j]).wf(),
        ticks_mono(old(events)@),
        ticks_bounded(old(events)@, *old(current_tick)),
        old(entity_states).ticks@.len() >= 1,
        buckets_mono(old(entity_states).ticks@),
        buckets_strict(old(entity_states).ticks@),
        old(entity_states).ticks@.last().tick == *old(current_tick),
        players_unique(old(player_info)@),
    ensures
        players_unique(final (player_info)@),
        ticks_mono(final (events)@),
        ticks_bounded(final (events)@, *final (current_tick)),
        *final (current_tick) >= *old(current_tick),
        final (entity_states).ticks@.len() >= 1,
        buckets_mono(final (entity_states).ticks@),
        buckets_strict(final (entity_states).ticks@),
        final (entity_states).ticks@.last().tick == *final (current_tick),
        final (events)@.len() >= old(events)@.len(),
        forall|i: int|
            0 <= i < old(events)@.len() ==> final (events)@[i] == old(events)@[i],
{
    let mut bitreader = new_reader(copy_bytes(packet_data.as_slice()))?;
    loop
        invariant
            table.wf(),
            bitreader.wf(),
            forall|j: int| 0 <= j < qf_mapper.map@.len() ==> (#[trigger] qf_mapper.map@[j]).wf(),
            ticks_mono(events@),
            ticks_bounded(events@, *current_tick),
            *current_tick >= *old(current_tick),
            entity_states.ticks@.len() >= 1,
            buckets_mono(entity_states.ticks@),
            buckets_strict(entity_states.ticks@),
            entity_states.ticks@.last().tick == *current_tick,
            players_unique(player_info@),
            events@.len() >= old(events)@.len(),
            forall|i: int| 0 <= i < old(events)@.len() ==> events@[i] == old(events)@[i],
        decreases bitreader.total_bits() - bitreader.pos,
    {
        let remaining = match bitreader.bits_remaining() {
            Some(v) => v,
            None => 0,
        };
        if remaining <= 8 {
            return Ok(());
        }
        let msg_type = bitreader.read_u_bit_var().map_err(|e| FirstPassError::Bitreader(e))?;
        let size = bitreader.read_varint().map_err(|e| FirstPassError::Bitreader(e))?;
        let msg_bytes = bitreader.read_n_bytes(size as usize).map_err(
            |e| FirstPassError::Bitreader(e),
        )?;
        let net_msg_type = match crate::netmessages::NetmessageType::try_from(msg_type as i32) {
            Ok(v) => v,
            Err(_) => {
                continue ;
            },
        };
        match net_msg_type {
            crate::netmessages::NetmessageType::net_Tick => {
                let raw = crate::protowire::CnetMsgTick::parse(msg_bytes.as_slice()).map_err(
                    |e| FirstPassError::DecodeProtobuf(e),
                )?;
                if raw.tick < *current_tick {
                    return Err(FirstPassError::NonMonotonicTick);
                }
                if raw.tick > *current_tick {
                    let ghost prevb = entity_states.ticks@;
                    *current_tick = raw.tick;
                    entity_states.new_tick(*current_tick);
                    proof {
                        assert(prevb[prevb.len() - 1].tick < raw.tick);
                        assert forall|i: int, j: int|
                            0 <= i < j < entity_states.ticks@.len() implies (
                        #[trigger] entity_states.ticks@[i]).tick < (
                        #[trigger] entity_states.ticks@[j]).tick by {
                            if j < prevb.len() {
                                assert(entity_states.ticks@[i] == prevb[i]
                                    && entity_states.ticks@[j] == prevb[j]);
                            } else {
                                assert(entity_states.ticks@[i] == prevb[i]);
                                assert(prevb[i].tick <= prevb[prevb.len() - 1].tick);
                            }
                        }
                    }
                }
                proof {
                    lemma_push_tick(events@, DemoEvent::Tick(Box::new(raw)), *current_tick);
                }
                events.push(DemoEvent::Tick(Box::new(raw)));
            },
            crate::netmessages::NetmessageType::svc_PacketEntities => {
                let raw = crate::protowire::CsvcMsgPacketEntities::parse(
                    msg_bytes.as_slice(),
                ).map_err(|e| FirstPassError::DecodeProtobuf(e))?;
                if entity_ctx.filter.enabled {
                    let mut er = new_reader(copy_bytes(raw.entity_data.as_slice()))?;
                    let mut entity_id: i64 = -1;
                    let updates: u32 = if raw.updated_entries >= 0 {
                        raw.updated_entries as u32
                    } else {
                        0
                    };
                    let mut u: u32 = 0;
                    while u < updates
                        invariant
                            table.wf(),
                            er.wf(),
                            forall|j: int|
                                0 <= j < qf_mapper.map@.len() ==> (
                                #[trigger] qf_mapper.map@[j]).wf(),
                            entity_states.ticks@.len() >= 1,
                            ticks_mono(events@),
                            ticks_bounded(events@, *current_tick),
                            *current_tick >= *old(current_tick),
                            buckets_mono(entity_states.ticks@),
                            buckets_strict(entity_states.ticks@),
                        buckets_strict(entity_states.ticks@),
            buckets_strict(entity_states.ticks@),
                            entity_states.ticks@.last().tick == *current_tick,
            players_unique(player_info@),
                            events@.len() >= old(events)@.len(),
                            forall|i: int|
                                0 <= i < old(events)@.len() ==> events@[i] == old(events)@[i],
                            -1 <= entity_id <= 0x7fff_ffff,
                        decreases updates - u,
                    {
                        let step = er.read_u_bit_var().map_err(|e| FirstPassError::Bitreader(e))?;
                        let next_id: i64 = entity_id + 1 + step as i64;
                        if next_id > 0x7fff_ffff {
                            return Err(FirstPassError::InvalidEntityTag);
                        }
                        entity_id = next_id;
                        let eid: i32 = entity_id as i32;
                        let tag = er.read_nbits(2).map_err(|e| FirstPassError::Bitreader(e))?;
                        if tag == 0b01 || tag == 0b11 {
                            entity_ctx.remove_entity(eid);
                        } else if tag == 0b10 {
                            let cls = entity_ctx.create_entity(eid, &mut er).map_err(|e| e)?;
                            match get_baseline(baselines, cls) {
                                Some(baseline_bytes) => {
                                    let mut br = new_reader(
                                        copy_bytes(baseline_bytes.as_slice()),
                                    )?;
                                    let _ = update_entity(
                                        table,
                                        eid,
                                        &mut br,
                                        entity_ctx,
                                        paths,
                                        qf_mapper,
                                        prop_controller,
                                    )?;
                                },
                                None => {},
                            }
                            let state = update_entity(
                                table,
                                eid,
                                &mut er,
                                entity_ctx,
                                paths,
                                qf_mapper,
                                prop_controller,
                            )?;
                            match state {
                                Some(s) => {
                                    entity_states.add_state(s);
                                },
                                None => {},
                            }
                        } else {
                            // An in-place update; one flagged visibility
                            // pair discards it.
                            let mut skip = false;
                            if raw.has_pvs_vis_bits > 0 {
                                let vis = er.read_nbits(2).map_err(
                                    |e| FirstPassError::Bitreader(e),
                                )?;
                                if vis & 0x01 == 1 {
                                    skip = true;
                                }
                            }
                            if !skip {
                                let state = update_entity(
                                    table,
                                    eid,
                                    &mut er,
                                    entity_ctx,
                                    paths,
                                    qf_mapper,
                                    prop_controller,
                                )?;
                                match state {
                                    Some(s) => {
                                        entity_states.add_state(s);
                                    },
                                    None => {},
                                }
                            }
                        }
                        u = u + 1;
                    }
                }
            },
            crate::netmessages::NetmessageType::CS_UM_EndOfMatchAllPlayersData => {
                let raw = crate::protowire::CcsUsrMsgEndOfMatchAllPlayersData::parse(
                    msg_bytes.as_slice(),
                ).map_err(|e| FirstPassError::DecodeProtobuf(e))?;
                let mut d: usize = 0;
                let players = raw.allplayerdata;
                let np = players.len();
                while d < np
                    invariant
                        np == players@.len(),
                        d <= np,
                        ticks_mono(events@),
                        ticks_bounded(events@, *current_tick),
                        *current_tick >= *old(current_tick),
                        entity_states.ticks@.len() >= 1,
                        buckets_mono(entity_states.ticks@),
                        buckets_strict(entity_states.ticks@),
            buckets_strict(entity_states.ticks@),
                        entity_states.ticks@.last().tick == *current_tick,
            players_unique(player_info@),
                        events@.len() >= old(events)@.len(),
                        forall|i: int|
                            0 <= i < old(events)@.len() ==> events@[i] == old(events)@[i],
                    decreases np - d,
                {
                    let data = &players[d];
                    let name = match &data.name {
                        Some(n) => copy_bytes(n.as_slice()),
                        None => {
                            return Err(
                                FirstPassError::DecodeProtobuf(
                                    crate::protowire::ProtoError::Truncated,
                                ),
                            );
                        },
                    };
                    let xuid = match data.xuid {
                        Some(x) => x,
                        None => {
                            return Err(
                                FirstPassError::DecodeProtobuf(
                                    crate::protowire::ProtoError::Truncated,
                                ),
                            );
                        },
                    };
                    let team = match data.teamnumber {
                        Some(t) => t,
                        None => {
                            return Err(
                                FirstPassError::DecodeProtobuf(
                                    crate::protowire::ProtoError::Truncated,
                                ),
                            );
                        },
                    };
                    let color = match data.playercolor {
                        Some(c) => c,
                        None => {
                            return Err(
                                FirstPassError::DecodeProtobuf(
                                    crate::protowire::ProtoError::Truncated,
                                ),
                            );
                        },
                    };
                    put_player(player_info, UserId(data.slot), Player { xuid, name, team, color });
                    d = d + 1;
                }
            },
            other => {
                let ghost pre = events@;
                let hr = handle_event_message(other, &msg_bytes, events, event_mapper);
                proof {
                    crate::packet::lemma_extend_non_tick(pre, events@, *current_tick);
                }
                match hr {
                    Ok(_) => {},
                    Err(e) => {
                        return Err(e);
                    },
                }
            },
        }
    }
}

/// The eager pass over a container's inner bytes: consumes every frame
/// and collects the whole output.  The collected event stream keeps its
/// tick markers monotonically non-decreasing.
pub fn parse(input: &[u8], filter: EntityFilter) -> (r: Result<FirstPassOutput, FirstPassError>)
    ensures
        r matches Ok(out) ==> ({
            &&& ticks_mono(out.events@)
            &&& out.entity_states.ticks@.len() >= 1
            &&& buckets_mono(out.entity_states.ticks@)
            &&& buckets_strict(out.entity_states.ticks@)
            &&& stream_has_cmd(input@, 1)
            &&& stream_has_cmd(input@, 2)
            &&& players_unique(out.player_info@)
        }),
{
    let table = HuffmanTable::new();
    let mut header: Option<crate::protowire::CDemoFileHeader> = None;
    let mut file_info: Option<crate::protowire::CDemoFileInfo> = None;
    let mut events: Vec<DemoEvent> = Vec::new();
    let mut event_mapper = GameEventMapping::new();
    let mut player_info: Vec<(UserId, Player)> = Vec::new();
    let mut entity_ctx = EntityContext::new(filter);
    let mut paths = Paths::new();
    let mut qf_mapper = QfMapper::new();
    let mut prop_controller = PropController::new();
    let mut serializers: Vec<(Vec<u8>, Serializer)> = Vec::new();
    let mut baselines: Vec<(u32, Vec<u8>)> = Vec::new();
    let mut entity_states = EntityTickList::new();
    let mut current_tick: u32 = 0;
    // One scratch buffer serves every frame's decompression.
    let mut buffer: Vec<u8> = Vec::new();
    let mut frames = FrameIterator::parse(input);
    loop
        invariant
            table.wf(),
            frames.wf(),
            forall|j: int| 0 <= j < qf_mapper.map@.len() ==> (#[trigger] qf_mapper.map@[j]).wf(),
            ticks_mono(events@),
            ticks_bounded(events@, current_tick),
            entity_states.ticks@.len() >= 1,
            buckets_mono(entity_states.ticks@),
            buckets_strict(entity_states.ticks@),
            entity_states.ticks@.last().tick == current_tick,
            forall|c: i32|
                #[trigger] stream_has_cmd(frames.remaining(), c) ==> stream_has_cmd(input@, c),
            header is Some ==> stream_has_cmd(input@, 1),
            file_info is Some ==> stream_has_cmd(input@, 2),
            players_unique(player_info@),
        decreases frames.remaining().len(),
    {
        let ghost rem0 = frames.remaining();
        let frame = match frames.next() {
            Some(f) => f,
            None => {
                break ;
            },
        };
        proof {
            let p = crate::frame::spec_frame_split(rem0).unwrap();
            assert(rem0.len() > 0);
            assert(stream_has_cmd(rem0, (p.raw_cmd & !64u32) as i32));
            assert forall|c: i32| #[trigger] stream_has_cmd(frames.remaining(), c) implies
            stream_has_cmd(input@, c) by {
                assert(stream_has_cmd(rem0, c));
            }
        }
        match frame.decompress_with_buf(&mut buffer) {
            Ok(()) => {},
            Err(e) => {
                return Err(FirstPassError::DecompressFrame(e));
            },
        }
        match frame.cmd {
            DemoCommand::FileHeader => {
                proof {
                    let p = crate::frame::spec_frame_split(rem0).unwrap();
                    assert((p.raw_cmd & !64u32) as i32 == 1);
                    assert(stream_has_cmd(input@, 1));
                }
                let raw = crate::protowire::CDemoFileHeader::parse(buffer.as_slice()).map_err(
                    |e| FirstPassError::DecodeProtobuf(e),
                )?;
                header = Some(raw);
            },
            DemoCommand::FileInfo => {
                proof {
                    let p = crate::frame::spec_frame_split(rem0).unwrap();
                    assert((p.raw_cmd & !64u32) as i32 == 2);
                    assert(stream_has_cmd(input@, 2));
                }
                let raw = crate::protowire::CDemoFileInfo::parse(buffer.as_slice()).map_err(
                    |e| FirstPassError::DecodeProtobuf(e),
                )?;
                file_info = Some(raw);
            },
            DemoCommand::SignonPacket | DemoCommand::Packet => {
                let raw = crate::protowire::CDemoPacket::parse(buffer.as_slice()).map_err(
                    |e| FirstPassError::DecodeProtobuf(e),
                )?;
                inner_parse_packet(
                    &table,
                    &raw.data,
                    &mut events,
                    &mut event_mapper,
                    &mut player_info,
                    &mut entity_ctx,
                    &mut paths,
                    &qf_mapper,
                    &mut baselines,
                    &prop_controller,
                    &mut entity_states,
                    &mut current_tick,
                )?;
            },
            DemoCommand::FullPacket => {
                let raw = crate::protowire::CDemoFullPacket::parse(buffer.as_slice()).map_err(
                    |e| FirstPassError::DecodeProtobuf(e),
                )?;
                match raw.packet {
                    Some(packet) => {
                        inner_parse_packet(
                            &table,
                            &packet.data,
                            &mut events,
                            &mut event_mapper,
                            &mut player_info,
                            &mut entity_ctx,
                            &mut paths,
                            &qf_mapper,
                            &mut baselines,
                            &prop_controller,
                            &mut entity_states,
                            &mut current_tick,
                        )?;
                    },
                    None => {},
                }
            },
            DemoCommand::AnimationData => {},
            DemoCommand::AnimationHeader => {},
            DemoCommand::StringTables => {
                let raw = crate::protowire::CDemoStringTables::parse(
                    buffer.as_slice(),
                ).map_err(|e| FirstPassError::DecodeProtobuf(e))?;
                let mut t: usize = 0;
                let tables = raw.tables;
                let nt = tables.len();
                while t < nt
                    invariant
                        nt == tables@.len(),
                        t <= nt,
                        ticks_mono(events@),
                        ticks_bounded(events@, current_tick),
                        entity_states.ticks@.len() >= 1,
                        buckets_mono(entity_states.ticks@),
                        buckets_strict(entity_states.ticks@),
            buckets_strict(entity_states.ticks@),
                        entity_states.ticks@.last().tick == current_tick,
                        table.wf(),
                        frames.wf(),
                        forall|j: int|
                            0 <= j < qf_mapper.map@.len() ==> (#[trigger] qf_mapper.map@[j]).wf(),
                        forall|c: i32|
                            #[trigger] stream_has_cmd(frames.remaining(), c) ==> stream_has_cmd(
                                input@,
                                c,
                            ),
                        header is Some ==> stream_has_cmd(input@, 1),
                        file_info is Some ==> stream_has_cmd(input@, 2),
                    decreases nt - t,
                {
                    if bytes_eq(tables[t].table_name.as_slice(), "instancebaseline".as_bytes()) {
                        let mut it: usize = 0;
                        let ni = tables[t].items.len();
                        while it < ni
                            invariant
                                t < tables@.len(),
                                ni == tables@[t as int].items@.len(),
                                it <= ni,
                        ticks_mono(events@),
                        ticks_bounded(events@, current_tick),
                        entity_states.ticks@.len() >= 1,
                        buckets_mono(entity_states.ticks@),
                        buckets_strict(entity_states.ticks@),
            buckets_strict(entity_states.ticks@),
                        entity_states.ticks@.last().tick == current_tick,
                        table.wf(),
                        frames.wf(),
                        forall|j: int|
                            0 <= j < qf_mapper.map@.len() ==> (#[trigger] qf_mapper.map@[j]).wf(),
                        forall|c: i32|
                            #[trigger] stream_has_cmd(frames.remaining(), c) ==> stream_has_cmd(
                                input@,
                                c,
                            ),
                        header is Some ==> stream_has_cmd(input@, 1),
                        file_info is Some ==> stream_has_cmd(input@, 2),
                            decreases ni - it,
                        {
                            let item = &tables[t].items[it];
                            let k = parse_u32_ascii(item.str_name.as_slice());
                            put_baseline(&mut baselines, k, copy_bytes(item.data.as_slice()));
                            it = it + 1;
                        }
                    }
                    t = t + 1;
                }
            },
            DemoCommand::SendTables => {
                let tables = crate::protowire::CDemoSendTables::parse(
                    buffer.as_slice(),
                ).map_err(|e| FirstPassError::DecodeProtobuf(e))?;
                let mut br = new_reader(tables.data)?;
                let n_bytes = br.read_varint().map_err(|e| FirstPassError::Bitreader(e))?;
                let bytes = br.read_n_bytes(n_bytes as usize).map_err(
                    |e| FirstPassError::Bitreader(e),
                )?;
                let serializer_msg = crate::protowire::FlattenedSerializer::parse(
                    bytes.as_slice(),
                ).map_err(|e| FirstPassError::DecodeProtobuf(e))?;
                if serializers.len() != 0 {
                    return Err(FirstPassError::MalformedSchema);
                }
                serializers = crate::sendtables::get_serializers(
                    &serializer_msg,
                    &mut qf_mapper,
                    &mut prop_controller,
                )?;
            },
            DemoCommand::ClassInfo => {
                let raw = crate::protowire::CDemoClassInfo::parse(buffer.as_slice()).map_err(
                    |e| FirstPassError::DecodeProtobuf(e),
                )?;
                entity_ctx.cls_to_class = Vec::new();
                let mut c: usize = 0;
                let classes = raw.classes;
                let nc = classes.len();
                while c < nc
                    invariant
                        nc == classes@.len(),
                        c <= nc,
                        ticks_mono(events@),
                        ticks_bounded(events@, current_tick),
                        entity_states.ticks@.len() >= 1,
                        buckets_mono(entity_states.ticks@),
                        buckets_strict(entity_states.ticks@),
            buckets_strict(entity_states.ticks@),
                        entity_states.ticks@.last().tick == current_tick,
                        table.wf(),
                        frames.wf(),
                        forall|j: int|
                            0 <= j < qf_mapper.map@.len() ==> (#[trigger] qf_mapper.map@[j]).wf(),
                        forall|c: i32|
                            #[trigger] stream_has_cmd(frames.remaining(), c) ==> stream_has_cmd(
                                input@,
                                c,
                            ),
                        header is Some ==> stream_has_cmd(input@, 1),
                        file_info is Some ==> stream_has_cmd(input@, 2),
                    decreases nc - c,
                {
                    let class_t = &classes[c];
                    // Move the matching serializer out of the table.
                    let mut found: Option<usize> = None;
                    let mut s: usize = 0;
                    while s < serializers.len()
                        invariant
                            s <= serializers@.len(),
                            found matches Some(k) ==> k < serializers@.len(),
                        ticks_mono(events@),
                        ticks_bounded(events@, current_tick),
                        entity_states.ticks@.len() >= 1,
                        buckets_mono(entity_states.ticks@),
                        buckets_strict(entity_states.ticks@),
            buckets_strict(entity_states.ticks@),
                        entity_states.ticks@.last().tick == current_tick,
                        table.wf(),
                        frames.wf(),
                        forall|j: int|
                            0 <= j < qf_mapper.map@.len() ==> (#[trigger] qf_mapper.map@[j]).wf(),
                        forall|c: i32|
                            #[trigger] stream_has_cmd(frames.remaining(), c) ==> stream_has_cmd(
                                input@,
                                c,
                            ),
                        header is Some ==> stream_has_cmd(input@, 1),
                        file_info is Some ==> stream_has_cmd(input@, 2),
                        decreases serializers@.len() - s,
                    {
                        if found.is_none() && bytes_eq(
                            serializers[s].0.as_slice(),
                            class_t.network_name.as_slice(),
                        ) {
                            found = Some(s);
                        }
                        s = s + 1;
                    }
                    match found {
                        Some(k) => {
                            let (_, ser) = serializers.remove(k);
                            entity_ctx.cls_to_class.push(
                                (
                                    class_t.class_id as u32,
                                    crate::entities::Class {
                                        name: copy_bytes(class_t.network_name.as_slice()),
                                        serializer: ser,
                                    },
                                ),
                            );
                        },
                        None => {},
                    }
                    c = c + 1;
                }
            },
            _ => {},
        }
    }
    let header = match header {
        Some(h) => h,
        None => {
            return Err(FirstPassError::MissingFileHeader);
        },
    };
    let info = match file_info {
        Some(i) => i,
        None => {
            return Err(FirstPassError::MissingFileInfo);
        },
    };
    Ok(FirstPassOutput { header, info, events, player_info, entity_states })
}

} // verus!
