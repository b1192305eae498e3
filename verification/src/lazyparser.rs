//! The lazy surface: iterators that replay the frame stream on demand,
//! yielding events and per-tick entity states one at a time; the header
//! and file-info lookups re-scan the frames each call.

use crate::bitreader::Bitreader;
use crate::byteops::{bytes_eq, copy_bytes};
use crate::container::Container;
use crate::democmd::DemoCommand;
use crate::entities::{EntityContext, EntityFilter, EntityState};
use crate::fieldpath::Paths;
use crate::frame::FrameIterator;
use crate::huffman::HuffmanTable;
use crate::packet::DemoEvent;
use crate::parser::{
    new_reader, stream_has_cmd, update_entity, FirstPassError, GameEventMapping, Player,
};
use crate::propcontroller::PropController;
use crate::protowire::EventListKey;
use crate::qfloat::QfMapper;
use crate::sendtables::Serializer;
use crate::values::UserId;
use vstd::prelude::*;

verus! {

/// Lazy access to one demo; every view re-scans the frame stream.
pub struct LazyParser {
    pub container: Container,
}

impl LazyParser {
    pub fn new(container: Container) -> (r: LazyParser)
        ensures
            r.container.inner@ == container.inner@,
    {
        LazyParser { container }
    }

    /// The file header, from the first file-header frame.
    pub fn file_header(&self) -> (r: Option<crate::protowire::CDemoFileHeader>)
        ensures
            r is Some ==> stream_has_cmd(self.container.inner@, 1),
    {
        let mut frames = FrameIterator::parse(self.container.inner.as_slice());
        loop
            invariant
                frames.wf(),
                forall|c: i32|
                    #[trigger] stream_has_cmd(frames.remaining(), c) ==> stream_has_cmd(
                        self.container.inner@,
                        c,
                    ),
            decreases frames.remaining().len(),
        {
            let ghost rem0 = frames.remaining();
            let mut frame = match frames.next() {
                Some(f) => f,
                None => {
                    return None;
                },
            };
            proof {
                let p = crate::frame::spec_frame_split(rem0).unwrap();
                assert(stream_has_cmd(rem0, (p.raw_cmd & !64u32) as i32));
                assert forall|c: i32| #[trigger] stream_has_cmd(frames.remaining(), c) implies
                stream_has_cmd(self.container.inner@, c) by {
                    assert(stream_has_cmd(rem0, c));
                }
            }
            if frame.cmd == DemoCommand::FileHeader {
                proof {
                    let p = crate::frame::spec_frame_split(rem0).unwrap();
                    assert((p.raw_cmd & !64u32) as i32 == 1);
                }
                match frame.decompress() {
                    Ok(()) => {},
                    Err(_) => {
                        return None;
                    },
                }
                match crate::protowire::CDemoFileHeader::parse(frame.inner.as_slice()) {
                    Ok(raw) => {
                        return Some(raw);
                    },
                    Err(_) => {
                        return None;
                    },
                }
            }
        }
    }

    /// The file info, from the first file-info frame.
    pub fn file_info(&self) -> (r: Option<crate::protowire::CDemoFileInfo>)
        ensures
            r is Some ==> stream_has_cmd(self.container.inner@, 2),
    {
        let mut frames = FrameIterator::parse(self.container.inner.as_slice());
        loop
            invariant
                frames.wf(),
                forall|c: i32|
                    #[trigger] stream_has_cmd(frames.remaining(), c) ==> stream_has_cmd(
                        self.container.inner@,
                        c,
                    ),
            decreases frames.remaining().len(),
        {
            let ghost rem0 = frames.remaining();
            let mut frame = match frames.next() {
                Some(f) => f,
                None => {
                    return None;
                },
            };
            proof {
                let p = crate::frame::spec_frame_split(rem0).unwrap();
                assert(stream_has_cmd(rem0, (p.raw_cmd & !64u32) as i32));
                assert forall|c: i32| #[trigger] stream_has_cmd(frames.remaining(), c) implies
                stream_has_cmd(self.container.inner@, c) by {
                    assert(stream_has_cmd(rem0, c));
                }
            }
            if frame.cmd == DemoCommand::FileInfo {
                proof {
                    let p = crate::frame::spec_frame_split(rem0).unwrap();
                    assert((p.raw_cmd & !64u32) as i32 == 2);
                }
                match frame.decompress() {
                    Ok(()) => {},
                    Err(_) => {
                        return None;
                    },
                }
                match crate::protowire::CDemoFileInfo::parse(frame.inner.as_slice()) {
                    Ok(raw) => {
                        return Some(raw);
                    },
                    Err(_) => {
                        return None;
                    },
                }
            }
        }
    }

    /// The player table, from every end-of-match message in the stream.
    /// Each user id holds at most one record, as in the eager pass.
    pub fn player_info(&self) -> (r: Vec<(UserId, Player)>)
        ensures
            crate::parser::players_unique(r@),
    {
        let mut result: Vec<(UserId, Player)> = Vec::new();
        let mut frames = FrameIterator::parse(self.container.inner.as_slice());
        loop
            invariant
                frames.wf(),
                crate::parser::players_unique(result@),
            decreases frames.remaining().len(),
        {
            let mut frame = match frames.next() {
                Some(f) => f,
                None => {
                    return result;
                },
            };
            let is_packet = frame.cmd == DemoCommand::Packet || frame.cmd
                == DemoCommand::SignonPacket || frame.cmd == DemoCommand::FullPacket;
            if !is_packet {
                continue ;
            }
            match frame.decompress() {
                Ok(()) => {},
                Err(_) => {
                    continue ;
                },
            }
            let packet_data: Vec<u8> = if frame.cmd == DemoCommand::FullPacket {
                match crate::protowire::CDemoFullPacket::parse(frame.inner.as_slice()) {
                    Ok(fp) => match fp.packet {
                        Some(p) => p.data,
                        None => {
                            continue ;
                        },
                    },
                    Err(_) => {
                        continue ;
                    },
                }
            } else {
                match crate::protowire::CDemoPacket::parse(frame.inner.as_slice()) {
                    Ok(p) => p.data,
                    Err(_) => {
                        continue ;
                    },
                }
            };
            scan_players(&packet_data, &mut result);
        }
    }

    /// The lazy event stream.
    pub fn events(&self) -> (r: LazyEventIterator) {
        LazyEventIterator::new(self)
    }

    /// The lazy entity-state stream.
    pub fn entities(&self) -> (r: LazyEntityIterator) {
        LazyEntityIterator::new(self)
    }
}

/// Collects player records out of one packet payload; the table's
/// one-record-per-user-id shape is preserved.
fn scan_players(packet_data: &Vec<u8>, result: &mut Vec<(UserId, Player)>)
    requires
        crate::parser::players_unique(old(result)@),
    ensures
        crate::parser::players_unique(final (result)@),
{
    let mut bitreader = match new_reader(copy_bytes(packet_data.as_slice())) {
        Ok(b) => b,
        Err(_) => {
            return ;
        },
    };
    loop
        invariant
            bitreader.wf(),
            crate::parser::players_unique(result@),
        decreases bitreader.total_bits() - bitreader.pos,
    {
        let remaining = match bitreader.bits_remaining() {
            Some(v) => v,
            None => 0,
        };
        if remaining <= 8 {
            return ;
        }
        let msg_type = match bitreader.read_u_bit_var() {
            Ok(v) => v,
            Err(_) => {
                return ;
            },
        };
        let size = match bitreader.read_varint() {
            Ok(v) => v,
            Err(_) => {
                return ;
            },
        };
        let msg_bytes = match bitreader.read_n_bytes(size as usize) {
            Ok(v) => v,
            Err(_) => {
                return ;
            },
        };
        let net_msg_type = match crate::netmessages::NetmessageType::try_from(msg_type as i32) {
            Ok(v) => v,
            Err(_) => {
                continue ;
            },
        };
        match net_msg_type {
            crate::netmessages::NetmessageType::CS_UM_EndOfMatchAllPlayersData => {
                let raw = match crate::protowire::CcsUsrMsgEndOfMatchAllPlayersData::parse(
                    msg_bytes.as_slice(),
                ) {
                    Ok(r) => r,
                    Err(_) => {
                        continue ;
                    },
                };
                let mut d: usize = 0;
                let players = raw.allplayerdata;
                let np = players.len();
                while d < np
                    invariant
                        np == players@.len(),
                        d <= np,
                        bitreader.wf(),
                        crate::parser::players_unique(result@),
                    decreases np - d,
                {
                    let data = &players[d];
                    let name = match &data.name {
                        Some(n) => copy_bytes(n.as_slice()),
                        None => {
                            d = d + 1;
                            continue ;
                        },
                    };
                    let xuid = match data.xuid {
                        Some(x) => x,
                        None => {
                            d = d + 1;
                            continue ;
                        },
                    };
                    let team = match data.teamnumber {
                        Some(t) => t,
                        None => {
                            d = d + 1;
                            continue ;
                        },
                    };
                    let color = match data.playercolor {
                        Some(c) => c,
                        None => {
                            d = d + 1;
                            continue ;
                        },
                    };
                    crate::parser::put_player(
                        result,
                        UserId(data.slot),
                        Player { xuid, name, team, color },
                    );
                    d = d + 1;
                }
            },
            _ => {},
        }
    }
}

/// The lazy event iterator: buffers the events of one frame and yields
/// them one at a time before advancing.
pub struct LazyEventIterator {
    pub frames: FrameIterator,
    pub pending_events: Vec<DemoEvent>,
    pub event_mapper: GameEventMapping,
}

impl LazyEventIterator {
    /// The frame cursor is inside its buffer.
    pub open spec fn wf(&self) -> bool {
        self.frames.wf()
    }

    pub fn new(parser: &LazyParser) -> (r: LazyEventIterator)
        ensures
            r.wf(),
    {
        LazyEventIterator {
            frames: FrameIterator::parse(parser.container.inner.as_slice()),
            pending_events: Vec::new(),
            event_mapper: GameEventMapping::new(),
        }
    }

    /// Dispatches the event-bearing messages of one packet payload into
    /// the pending buffer, through the same per-message dispatcher the
    /// eager pass runs, so one packet yields the same events either way.
    /// The buffer grows only: what was pending stays, in order.
    fn packet_events(
        packet_data: &Vec<u8>,
        events: &mut Vec<DemoEvent>,
        event_mapper: &mut GameEventMapping,
    ) -> (r: Result<(), FirstPassError>)
        ensures
            final (events)@.len() >= old(events)@.len(),
            forall|i: int| 0 <= i < old(events)@.len() ==> final (events)@[i] == old(events)@[i],
    {
        let mut bitreader = new_reader(copy_bytes(packet_data.as_slice()))?;
        loop
            invariant
                bitreader.wf(),
                events@.len() >= old(events)@.len(),
                forall|i: int| 0 <= i < old(events)@.len() ==> events@[i] == old(events)@[i],
            decreases bitreader.total_bits() - bitreader.pos,
        {
            let remaining = match bitreader.bits_remaining() {
                Some(v) => v,
                None => 0,
            };
            if remaining <= 8 {
                return Ok(());
            }
            let msg_type = bitreader.read_u_bit_var().map_err(|e| FirstPassError::Bitreader(e))?;
            let size = bitreader.read_varint().map_err(|e| FirstPassError::Bitreader(e))?;
            let msg_bytes = bitreader.read_n_bytes(size as usize).map_err(
                |e| FirstPassError::Bitreader(e),
            )?;
            let net_msg_type = match crate::netmessages::NetmessageType::try_from(
                msg_type as i32,
            ) {
                Ok(v) => v,
                Err(_) => {
                    continue ;
                },
            };
            match net_msg_type {
                crate::netmessages::NetmessageType::net_Tick => {
                    let raw = crate::protowire::CnetMsgTick::parse(msg_bytes.as_slice()).map_err(
                        |e| FirstPassError::DecodeProtobuf(e),
                    )?;
                    events.push(DemoEvent::Tick(Box::new(raw)));
                },
                other => {
                    let _ = crate::parser::handle_event_message(
                        other,
                        &msg_bytes,
                        events,
                        event_mapper,
                    )?;
                },
            }
        }
    }

    /// The next event: drains the buffer first, then advances frames
    /// until one yields events.  A per-frame failure yields an error
    /// and the stream goes on with the next frame.
    pub fn next(&mut self) -> (r: Option<Result<DemoEvent, ()>>)
        requires
            old(self).wf(),
        ensures
            final (self).wf(),
            r is None ==> final (self).frames.remaining().len() == 0,
            old(self).pending_events@.len() > 0 ==> ({
                &&& r == Some(Ok::<DemoEvent, ()>(old(self).pending_events@[0]))
                &&& final (self).pending_events@ == old(self).pending_events@.skip(1)
                &&& final (self).frames == old(self).frames
            }),
    {
        if self.pending_events.len() > 0 {
            let e = self.pending_events.remove(0);
            proof {
                assert(self.pending_events@ =~= old(self).pending_events@.skip(1));
            }
            return Some(Ok(e));
        }
        loop
            invariant
                self.frames.wf(),
                old(self).pending_events@.len() == 0,
            decreases self.frames.remaining().len(),
        {
            let mut frame = match self.frames.next() {
                Some(f) => f,
                None => {
                    return None;
                },
            };
            let is_plain = frame.cmd == DemoCommand::Packet || frame.cmd
                == DemoCommand::SignonPacket;
            if is_plain || frame.cmd == DemoCommand::FullPacket {
                match frame.decompress() {
                    Ok(()) => {},
                    Err(_) => {
                        return Some(Err(()));
                    },
                }
                let packet_data: Option<Vec<u8>> = if is_plain {
                    match crate::protowire::CDemoPacket::parse(frame.inner.as_slice()) {
                        Ok(p) => Some(p.data),
                        Err(_) => {
                            return Some(Err(()));
                        },
                    }
                } else {
                    match crate::protowire::CDemoFullPacket::parse(frame.inner.as_slice()) {
                        Ok(fp) => match fp.packet {
                            Some(p) => Some(p.data),
                            None => None,
                        },
                        Err(_) => {
                            return Some(Err(()));
                        },
                    }
                };
                match packet_data {
                    Some(data) => {
                        match Self::packet_events(
                            &data,
                            &mut self.pending_events,
                            &mut self.event_mapper,
                        ) {
                            Ok(()) => {},
                            Err(_) => {
                                return Some(Err(()));
                            },
                        }
                    },
                    None => {},
                }
            }
            if self.pending_events.len() > 0 {
                let e = self.pending_events.remove(0);
                return Some(Ok(e));
            }
        }
    }
}

/// The lazy entity iterator: owns its own schema, class, baseline and
/// path state, buffers the states of one frame, and yields them with
/// their tick.
pub struct LazyEntityIterator {
    pub frames: FrameIterator,
    pub table: HuffmanTable,
    pub current_tick: u32,
    pub pending_entities: Vec<(u32, EntityState)>,
    pub paths: Paths,
    pub baselines: Vec<(u32, Vec<u8>)>,
    pub serializers: Vec<(Vec<u8>, Serializer)>,
    pub qf_mapper: QfMapper,
    pub prop_controller: PropController,
    pub entity_ctx: EntityContext,
}

impl LazyEntityIterator {
    /// Every registered quantised-float descriptor is usable, the frame
    /// cursor is inside its buffer, and no buffered state is newer than
    /// the current tick.
    pub open spec fn wf(&self) -> bool {
        &&& self.table.wf()
        &&& self.frames.wf()
        &&& forall|j: int|
            0 <= j < self.qf_mapper.map@.len() ==> (#[trigger] self.qf_mapper.map@[j]).wf()
        &&& forall|k: int|
            0 <= k < self.pending_entities@.len() ==> (#[trigger] self.pending_entities@[k]).0
                <= self.current_tick
    }

    pub fn new(parser: &LazyParser) -> (r: LazyEntityIterator)
        ensures
            r.wf(),
    {
        LazyEntityIterator {
            frames: FrameIterator::parse(parser.container.inner.as_slice()),
            table: HuffmanTable::new(),
            current_tick: 0,
            pending_entities: Vec::new(),
            paths: Paths::new(),
            baselines: Vec::new(),
            serializers: Vec::new(),
            qf_mapper: QfMapper::new(),
            prop_controller: PropController::new(),
            entity_ctx: EntityContext::new(EntityFilter::all()),
        }
    }

    /// Decodes the entity-bearing messages of one packet payload into
    /// the pending buffer.
    fn packet_entities(&mut self, packet_data: &Vec<u8>) -> (r: Result<(), FirstPassError>)
        requires
            old(self).wf(),
        ensures
            final (self).wf(),
            final (self).frames == old(self).frames,
            final (self).current_tick >= old(self).current_tick,
    {
        let mut bitreader = new_reader(copy_bytes(packet_data.as_slice()))?;
        loop
            invariant
                self.wf(),
                self.frames == old(self).frames,
                self.current_tick >= old(self).current_tick,
                bitreader.wf(),
            decreases bitreader.total_bits() - bitreader.pos,
        {
            let remaining = match bitreader.bits_remaining() {
                Some(v) => v,
                None => 0,
            };
            if remaining <= 8 {
                return Ok(());
            }
            let msg_type = bitreader.read_u_bit_var().map_err(|e| FirstPassError::Bitreader(e))?;
            let size = bitreader.read_varint().map_err(|e| FirstPassError::Bitreader(e))?;
            let msg_bytes = bitreader.read_n_bytes(size as usize).map_err(
                |e| FirstPassError::Bitreader(e),
            )?;
            let net_msg_type = match crate::netmessages::NetmessageType::try_from(
                msg_type as i32,
            ) {
                Ok(v) => v,
                Err(_) => {
                    continue ;
                },
            };
            match net_msg_type {
                crate::netmessages::NetmessageType::net_Tick => {
                    let raw = crate::protowire::CnetMsgTick::parse(msg_bytes.as_slice()).map_err(
                        |e| FirstPassError::DecodeProtobuf(e),
                    )?;
                    if raw.tick < self.current_tick {
                        return Err(FirstPassError::NonMonotonicTick);
                    }
                    if raw.tick > self.current_tick {
                        self.current_tick = raw.tick;
                    }
                },
                crate::netmessages::NetmessageType::svc_PacketEntities => {
                    let raw = crate::protowire::CsvcMsgPacketEntities::parse(
                        msg_bytes.as_slice(),
                    ).map_err(|e| FirstPassError::DecodeProtobuf(e))?;
                    if self.entity_ctx.filter.enabled {
                        let mut er = new_reader(copy_bytes(raw.entity_data.as_slice()))?;
                        let mut entity_id: i64 = -1;
                        let updates: u32 = if raw.updated_entries >= 0 {
                            raw.updated_entries as u32
                        } else {
                            0
                        };
                        let mut u: u32 = 0;
                        while u < updates
                            invariant
                                self.wf(),
                                self.frames == old(self).frames,
                                self.current_tick >= old(self).current_tick,
                                er.wf(),
                                bitreader.wf(),
                                -1 <= entity_id <= 0x7fff_ffff,
                            decreases updates - u,
                        {
                            let step = er.read_u_bit_var().map_err(
                                |e| FirstPassError::Bitreader(e),
                            )?;
                            let next_id: i64 = entity_id + 1 + step as i64;
                            if next_id > 0x7fff_ffff {
                                return Err(FirstPassError::InvalidEntityTag);
                            }
                            entity_id = next_id;
                            let eid: i32 = entity_id as i32;
                            let tag = er.read_nbits(2).map_err(|e| FirstPassError::Bitreader(e))?;
                            if tag == 0b01 || tag == 0b11 {
                                self.entity_ctx.remove_entity(eid);
                            } else if tag == 0b10 {
                                let cls = self.entity_ctx.create_entity(eid, &mut er)?;
                                let baseline: Option<Vec<u8>> = {
                                    let mut i: usize = 0;
                                    let mut found: Option<Vec<u8>> = None;
                                    while i < self.baselines.len()
                                        invariant
                                            i <= self.baselines@.len(),
                                            self.wf(),
                                            self.frames == old(self).frames,
                                            self.current_tick >= old(self).current_tick,
                                        decreases self.baselines@.len() - i,
                                    {
                                        if self.baselines[i].0 == cls {
                                            found = Some(
                                                copy_bytes(self.baselines[i].1.as_slice()),
                                            );
                                            i = self.baselines.len();
                                            continue ;
                                        }
                                        i = i + 1;
                                    }
                                    found
                                };
                                match baseline {
                                    Some(baseline_bytes) => {
                                        let mut br = new_reader(baseline_bytes)?;
                                        let _ = update_entity(
                                            &self.table,
                                            eid,
                                            &mut br,
                                            &mut self.entity_ctx,
                                            &mut self.paths,
                                            &self.qf_mapper,
                                            &self.prop_controller,
                                        )?;
                                    },
                                    None => {},
                                }
                                let state = update_entity(
                                    &self.table,
                                    eid,
                                    &mut er,
                                    &mut self.entity_ctx,
                                    &mut self.paths,
                                    &self.qf_mapper,
                                    &self.prop_controller,
                                )?;
                                match state {
                                    Some(s) => {
                                        self.pending_entities.push((self.current_tick, s));
                                    },
                                    None => {},
                                }
                            } else {
                                let mut skip = false;
                                if raw.has_pvs_vis_bits > 0 {
                                    let vis = er.read_nbits(2).map_err(
                                        |e| FirstPassError::Bitreader(e),
                                    )?;
                                    if vis & 0x01 == 1 {
                                        skip = true;
                                    }
                                }
                                if !skip {
                                    let state = update_entity(
                                        &self.table,
                                        eid,
                                        &mut er,
                                        &mut self.entity_ctx,
                                        &mut self.paths,
                                        &self.qf_mapper,
                                        &self.prop_controller,
                                    )?;
                                    match state {
                                        Some(s) => {
                                            self.pending_entities.push((self.current_tick, s));
                                        },
                                        None => {},
                                    }
                                }
                            }
                            u = u + 1;
                        }
                    }
                },
                _ => {},
            }
        }
    }

    /// The next (tick, state) pair: drains the buffer first, then
    /// advances frames, maintaining schema, classes and baselines from
    /// the meta frames it passes.
    pub fn next(&mut self) -> (r: Option<Result<(u32, EntityState), ()>>)
        requires
            old(self).wf(),
        ensures
            final (self).wf(),
            r is None ==> final (self).frames.remaining().len() == 0,
            r matches Some(Ok(e)) ==> e.0 <= final (self).current_tick,
            old(self).pending_entities@.len() > 0 ==> ({
                &&& r == Some(Ok::<(u32, EntityState), ()>(old(self).pending_entities@[0]))
                &&& final (self).pending_entities@ == old(self).pending_entities@.skip(1)
                &&& final (self).frames == old(self).frames
            }),
    {
        if self.pending_entities.len() > 0 {
            let e = self.pending_entities.remove(0);
            proof {
                assert(self.pending_entities@ =~= old(self).pending_entities@.skip(1));
            }
            return Some(Ok(e));
        }
        loop
            invariant
                self.wf(),
                old(self).pending_entities@.len() == 0,
            decreases self.frames.remaining().len(),
        {
            let mut frame = match self.frames.next() {
                Some(f) => f,
                None => {
                    return None;
                },
            };
            let cmd = frame.cmd;
            let relevant = cmd == DemoCommand::Packet || cmd == DemoCommand::SignonPacket || cmd
                == DemoCommand::FullPacket || cmd == DemoCommand::StringTables || cmd
                == DemoCommand::SendTables || cmd == DemoCommand::ClassInfo;
            if !relevant {
                continue ;
            }
            let ghost fr = self.frames;
            match frame.decompress() {
                Ok(()) => {},
                Err(_) => {
                    return Some(Err(()));
                },
            }
            if cmd == DemoCommand::Packet || cmd == DemoCommand::SignonPacket {
                let raw = match crate::protowire::CDemoPacket::parse(frame.inner.as_slice()) {
                    Ok(p) => p,
                    Err(_) => {
                        return Some(Err(()));
                    },
                };
                match self.packet_entities(&raw.data) {
                    Ok(()) => {},
                    Err(_) => {
                        return Some(Err(()));
                    },
                }
            } else if cmd == DemoCommand::FullPacket {
                let raw = match crate::protowire::CDemoFullPacket::parse(frame.inner.as_slice()) {
                    Ok(p) => p,
                    Err(_) => {
                        return Some(Err(()));
                    },
                };
                match raw.packet {
                    Some(packet) => {
                        match self.packet_entities(&packet.data) {
                            Ok(()) => {},
                            Err(_) => {
                                return Some(Err(()));
                            },
                        }
                    },
                    None => {},
                }
            } else if cmd == DemoCommand::StringTables {
                let raw = match crate::protowire::CDemoStringTables::parse(
                    frame.inner.as_slice(),
                ) {
                    Ok(p) => p,
                    Err(_) => {
                        return Some(Err(()));
                    },
                };
                let mut t: usize = 0;
                let tables = raw.tables;
                let nt = tables.len();
                while t < nt
                    invariant
                        nt == tables@.len(),
                        t <= nt,
                        self.wf(),
                        self.frames == fr,
                    decreases nt - t,
                {
                    if bytes_eq(tables[t].table_name.as_slice(), "instancebaseline".as_bytes()) {
                        let mut it: usize = 0;
                        let ni = tables[t].items.len();
                        while it < ni
                            invariant
                                t < tables@.len(),
                                ni == tables@[t as int].items@.len(),
                                it <= ni,
                                self.wf(),
                                self.frames == fr,
                            decreases ni - it,
                        {
                            let item = &tables[t].items[it];
                            let k = crate::parser::parse_u32_ascii(item.str_name.as_slice());
                            crate::parser::put_baseline(
                                &mut self.baselines,
                                k,
                                copy_bytes(item.data.as_slice()),
                            );
                            it = it + 1;
                        }
                    }
                    t = t + 1;
                }
            } else if cmd == DemoCommand::SendTables {
                let tables = match crate::protowire::CDemoSendTables::parse(
                    frame.inner.as_slice(),
                ) {
                    Ok(p) => p,
                    Err(_) => {
                        return Some(Err(()));
                    },
                };
                let mut br = match new_reader(tables.data) {
                    Ok(b) => b,
                    Err(_) => {
                        return Some(Err(()));
                    },
                };
                let n_bytes = match br.read_varint() {
                    Ok(n) => n,
                    Err(_) => {
                        return Some(Err(()));
                    },
                };
                let bytes = match br.read_n_bytes(n_bytes as usize) {
                    Ok(b) => b,
                    Err(_) => {
                        return Some(Err(()));
                    },
                };
                let serializer_msg = match crate::protowire::FlattenedSerializer::parse(
                    bytes.as_slice(),
                ) {
                    Ok(m) => m,
                    Err(_) => {
                        return Some(Err(()));
                    },
                };
                if self.serializers.len() != 0 {
                    return Some(Err(()));
                }
                match crate::sendtables::get_serializers(
                    &serializer_msg,
                    &mut self.qf_mapper,
                    &mut self.prop_controller,
                ) {
                    Ok(s) => {
                        self.serializers = s;
                    },
                    Err(_) => {
                        return Some(Err(()));
                    },
                }
            } else {
                let raw = match crate::protowire::CDemoClassInfo::parse(frame.inner.as_slice()) {
                    Ok(p) => p,
                    Err(_) => {
                        return Some(Err(()));
                    },
                };
                self.entity_ctx.cls_to_class = Vec::new();
                let mut c: usize = 0;
                let classes = raw.classes;
                let nc = classes.len();
                while c < nc
                    invariant
                        nc == classes@.len(),
                        c <= nc,
                        self.wf(),
                        self.frames == fr,
                    decreases nc - c,
                {
                    let class_t = &classes[c];
                    let mut found: Option<usize> = None;
                    let mut s: usize = 0;
                    while s < self.serializers.len()
                        invariant
                            s <= self.serializers@.len(),
                            found matches Some(k) ==> k < self.serializers@.len(),
                            self.wf(),
                            self.frames == fr,
                            c < classes@.len(),
                            nc == classes@.len(),
                        decreases self.serializers@.len() - s,
                    {
                        if found.is_none() && bytes_eq(
                            self.serializers[s].0.as_slice(),
                            class_t.network_name.as_slice(),
                        ) {
                            found = Some(s);
                        }
                        s = s + 1;
                    }
                    match found {
                        Some(k) => {
                            let (_, ser) = self.serializers.remove(k);
                            self.entity_ctx.cls_to_class.push(
                                (
                                    class_t.class_id as u32,
                                    crate::entities::Class {
                                        name: copy_bytes(class_t.network_name.as_slice()),
                                        serializer: ser,
                                    },
                                ),
                            );
                        },
                        None => {},
                    }
                    c = c + 1;
                }
            }
            if self.pending_entities.len() > 0 {
                let e = self.pending_entities.remove(0);
                return Some(Ok(e));
            }
        }
    }
}

} // verus!
