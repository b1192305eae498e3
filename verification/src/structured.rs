//! Structured views over decoded entity states: typed wrappers for the
//! team and player-pawn classes.

use crate::byteops::bytes_eq;
use crate::entities::EntityState;
use crate::variant::Variant;
use vstd::prelude::*;
use vstd::string::StringSliceAdditionalSpecFns;

verus! {

/// The low bits of an entity handle: the pawn's entity index.
#[derive(Debug, PartialEq, Eq, Clone, Copy, Structural)]
pub struct PawnID(pub u32);

impl PawnID {
    /// A pawn id out of a signed handle.
    pub fn from_i32(value: i32) -> (r: PawnID)
        ensures
            r.0 == (value & 0x7ff) as u32,
    {
        PawnID((value & 0x7ff) as u32)
    }

    /// A pawn id out of an unsigned handle.
    pub fn from_u32(value: u32) -> (r: PawnID)
        ensures
            r.0 == value & 0x7ff,
    {
        PawnID(value & 0x7ff)
    }
}

/// The pawn ids that a state's pawn-list entries hold, in order: one
/// for each unsigned value under the team pawn-list name.
pub open spec fn pawns_of(props: Seq<crate::entities::EntityProp>) -> Seq<PawnID>
    decreases props.len(),
{
    if props.len() == 0 {
        Seq::empty()
    } else {
        let rest = pawns_of(props.drop_last());
        let p = props.last();
        if p.prop_info.prop_name@ == "CCSTeam.m_aPawns".spec_bytes() {
            match p.value {
                Variant::U32(v) => rest.push(PawnID((v & 0x7ff) as u32)),
                _ => rest,
            }
        } else {
            rest
        }
    }
}

/// A team entity's state.
pub struct CCSTeam {
    pub state: EntityState,
}

impl CCSTeam {
    /// Wraps a state whose class is the team class.
    pub fn from_state(value: &EntityState) -> (r: Result<CCSTeam, ()>) {
        if !bytes_eq(value.class.as_slice(), "CCSTeam".as_bytes()) {
            return Err(());
        }
        Ok(CCSTeam { state: value.clone() })
    }

    pub fn entity_id(&self) -> (r: i32)
        ensures
            r == self.state.id,
    {
        self.state.id
    }

    /// The team's name property, when present and a string.
    pub fn team_name(&self) -> (r: Option<Vec<u8>>)
        ensures
            r matches Some(s) ==> exists|j: int|
                ({
                    &&& 0 <= j < self.state.props@.len()
                    &&& (#[trigger] self.state.props@[j]).prop_info.prop_name@
                        == "CCSTeam.m_szTeamname".spec_bytes()
                    &&& self.state.props@[j].value matches Variant::String(v) && v@ == s@
                }),
            r is None ==> ({
                ||| forall|j: int|
                    0 <= j < self.state.props@.len() ==> (
                    #[trigger] self.state.props@[j]).prop_info.prop_name@ != "CCSTeam.m_szTeamname".spec_bytes()
                ||| exists|j: int|
                    ({
                        &&& 0 <= j < self.state.props@.len()
                        &&& (#[trigger] self.state.props@[j]).prop_info.prop_name@
                            == "CCSTeam.m_szTeamname".spec_bytes()
                        &&& !(self.state.props@[j].value is String)
                        &&& forall|k: int|
                            0 <= k < j ==> (#[trigger] self.state.props@[k]).prop_info.prop_name@
                                != "CCSTeam.m_szTeamname".spec_bytes()
                    })
            }),
    {
        match self.state.get_prop("CCSTeam.m_szTeamname".as_bytes()) {
            Some(p) => match &p.value {
                Variant::String(v) => Some(crate::byteops::copy_bytes(v.as_slice())),
                _ => None,
            },
            None => None,
        }
    }

    /// Every pawn handle the team's pawn list holds, in order.
    pub fn player_pawns(&self) -> (r: Vec<PawnID>)
        ensures
            r@ == pawns_of(self.state.props@),
    {
        let mut out: Vec<PawnID> = Vec::new();
        let mut i: usize = 0;
        while i < self.state.props.len()
            invariant
                i <= self.state.props@.len(),
                out@ == pawns_of(self.state.props@.take(i as int)),
            decreases self.state.props@.len() - i,
        {
            let p = &self.state.props[i];
            let ghost pre = self.state.props@.take(i as int);
            proof {
                assert(self.state.props@.take(i + 1).drop_last() =~= pre);
                assert(self.state.props@.take(i + 1).last() == self.state.props@[i as int]);
            }
            if bytes_eq(p.prop_info.prop_name.as_slice(), "CCSTeam.m_aPawns".as_bytes()) {
                match p.value.as_u32() {
                    Some(v) => {
                        out.push(PawnID::from_u32(v));
                    },
                    None => {},
                }
            }
            i = i + 1;
        }
        proof {
            assert(self.state.props@.take(self.state.props@.len() as int)
                =~= self.state.props@);
        }
        out
    }

    /// The team's score property, when present and signed.
    pub fn score(&self) -> (r: Option<i32>)
        ensures
            r matches Some(v) ==> exists|j: int|
                ({
                    &&& 0 <= j < self.state.props@.len()
                    &&& (#[trigger] self.state.props@[j]).prop_info.prop_name@
                        == "CCSTeam.m_iScore".spec_bytes()
                    &&& self.state.props@[j].value == Variant::I32(v)
                }),
            r is None ==> ({
                ||| forall|j: int|
                    0 <= j < self.state.props@.len() ==> (
                    #[trigger] self.state.props@[j]).prop_info.prop_name@ != "CCSTeam.m_iScore".spec_bytes()
                ||| exists|j: int|
                    ({
                        &&& 0 <= j < self.state.props@.len()
                        &&& (#[trigger] self.state.props@[j]).prop_info.prop_name@
                            == "CCSTeam.m_iScore".spec_bytes()
                        &&& !(self.state.props@[j].value is I32)
                        &&& forall|k: int|
                            0 <= k < j ==> (#[trigger] self.state.props@[k]).prop_info.prop_name@
                                != "CCSTeam.m_iScore".spec_bytes()
                    })
            }),
    {
        match self.state.get_prop("CCSTeam.m_iScore".as_bytes()) {
            Some(p) => p.value.as_i32(),
            None => None,
        }
    }

    /// The team's number property, when present and unsigned.
    pub fn team_number(&self) -> (r: Option<u32>)
        ensures
            r matches Some(v) ==> exists|j: int|
                ({
                    &&& 0 <= j < self.state.props@.len()
                    &&& (#[trigger] self.state.props@[j]).prop_info.prop_name@
                        == "CCSTeam.m_iTeamNum".spec_bytes()
                    &&& self.state.props@[j].value == Variant::U32(v)
                }),
            r is None ==> ({
                ||| forall|j: int|
                    0 <= j < self.state.props@.len() ==> (
                    #[trigger] self.state.props@[j]).prop_info.prop_name@ != "CCSTeam.m_iTeamNum".spec_bytes()
                ||| exists|j: int|
                    ({
                        &&& 0 <= j < self.state.props@.len()
                        &&& (#[trigger] self.state.props@[j]).prop_info.prop_name@
                            == "CCSTeam.m_iTeamNum".spec_bytes()
                        &&& !(self.state.props@[j].value is U32)
                        &&& forall|k: int|
                            0 <= k < j ==> (#[trigger] self.state.props@[k]).prop_info.prop_name@
                                != "CCSTeam.m_iTeamNum".spec_bytes()
                    })
            }),
    {
        match self.state.get_prop("CCSTeam.m_iTeamNum".as_bytes()) {
            Some(p) => p.value.as_u32(),
            None => None,
        }
    }
}

/// A player-pawn entity's state.
pub struct CCSPlayerPawn {
    pub state: EntityState,
}

impl CCSPlayerPawn {
    /// Wraps a state whose class is the player-pawn class.
    pub fn from_state(value: &EntityState) -> (r: Result<CCSPlayerPawn, ()>) {
        if !bytes_eq(value.class.as_slice(), "CCSPlayerPawn".as_bytes()) {
            return Err(());
        }
        Ok(CCSPlayerPawn { state: value.clone() })
    }

    pub fn entity_id(&self) -> (r: i32)
        ensures
            r == self.state.id,
    {
        self.state.id
    }

    pub fn pawn_id(&self) -> (r: PawnID)
        ensures
            r.0 == (self.state.id & 0x7ff) as u32,
    {
        PawnID::from_i32(self.state.id)
    }

    pub fn inner(&self) -> (r: &EntityState)
        ensures
            r == &self.state,
    {
        &self.state
    }
}

} // verus!
