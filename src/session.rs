//! Call sessions: who is in the call, and how each participant is shown.
use vstd::prelude::*;

verus! {

/// One participant of a call, with what the call knows of them.
#[derive(Clone, Debug)]
pub struct PlayerWithCallStatus {
    pub username: String,
    pub avatar_src: String,
    pub is_muted: bool,
    pub is_speaking: bool,
}

impl PlayerWithCallStatus {
    /// A field-by-field copy, known to equal the original.
    pub fn duplicate(&self) -> (r: PlayerWithCallStatus)
        ensures
            r == *self,
    {
        PlayerWithCallStatus {
            username: self.username.clone(),
            avatar_src: self.avatar_src.clone(),
            is_muted: self.is_muted,
            is_speaking: self.is_speaking,
        }
    }
}

/// An active call: its participants in display order, and the channel's
/// name if it has one.
#[derive(Clone, Debug)]
pub struct Livestream {
    pub players: Vec<PlayerWithCallStatus>,
    pub channel: Option<String>,
}

/// The visual element that stands for one participant.
#[derive(Clone, Debug)]
pub struct PlayerStack {
    pub player: PlayerWithCallStatus,
}

impl PlayerStack {
    pub fn new(player: PlayerWithCallStatus) -> (r: PlayerStack)
        ensures
            r.player == player,
    {
        PlayerStack { player }
    }
}

/// The participants that an optional session shows, in display order; none
/// without a session.
pub open spec fn participants_of(livestream: Option<Livestream>) -> Seq<PlayerWithCallStatus> {
    match livestream {
        Some(l) => l.players@,
        None => Seq::empty(),
    }
}

/// One participant stack for each participant, in the same order.
pub open spec fn stacks_of(players: Seq<PlayerWithCallStatus>) -> Seq<PlayerStack> {
    players.map_values(|p: PlayerWithCallStatus| PlayerStack { player: p })
}

/// Projects an optional session onto its participant stacks: one per
/// participant, in input order, and none when there is no session.
pub fn player_stacks(livestream: &Option<Livestream>) -> (r: Vec<PlayerStack>)
    ensures
        r@ == stacks_of(participants_of(*livestream)),
{
    let mut stacks: Vec<PlayerStack> = Vec::new();
    match livestream {
        Some(l) => {
            let n = l.players.len();
            let mut i: usize = 0;
            while i < n
                invariant
                    n == l.players@.len(),
                    i <= n,
                    stacks@ == stacks_of(l.players@.subrange(0, i as int)),
                decreases n - i,
            {
                let p = l.players[i].duplicate();
                stacks.push(PlayerStack::new(p));
                i = i + 1;
                assert(stacks@ =~= stacks_of(l.players@.subrange(0, i as int)));
            }
            assert(l.players@.subrange(0, n as int) =~= l.players@);
        },
        None => {
            assert(stacks@ =~= stacks_of(Seq::empty()));
        },
    }
    stacks
}

} // verus!
