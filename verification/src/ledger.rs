//! The participant ledger: an append-only registry of players, addressable
//! by address and by 1-based ticket index. Both directions are kept
//! consistent by construction — the entry at position `i` holds ticket
//! `i + 1`.

use vstd::prelude::*;
use crate::decimal::dec_digits;
use crate::state::{PlayerInfo, PlayerInfoV};

verus! {

/// The players of one lottery, in buy order.
#[derive(Clone, Debug, PartialEq, Eq)]
pub struct PlayerLedger {
    pub players: Vec<PlayerInfo>,
}

impl View for PlayerLedger {
    type V = Seq<PlayerInfoV>;

    open spec fn view(&self) -> Seq<PlayerInfoV> {
        Seq::new(self.players@.len(), |i: int| self.players@[i]@)
    }
}

impl PlayerLedger {
    /// Well-formed: tickets are numbered upward from 1 in buy order, and no
    /// address holds two entries.
    pub open spec fn wf(self) -> bool {
        &&& forall|i: int|
            0 <= i < self@.len() ==> (#[trigger] self@[i]).ticket_id == dec_digits((i + 1) as nat)
        &&& forall|i: int, j: int|
            0 <= i < j < self@.len() ==> (#[trigger] self@[i]).player_addr != (
            #[trigger] self@[j]).player_addr
    }

    /// Whether some entry holds the address.
    pub open spec fn spec_contains(self, addr: Seq<char>) -> bool {
        exists|i: int| 0 <= i < self@.len() && (#[trigger] self@[i]).player_addr == addr
    }

    pub fn new() -> (r: PlayerLedger)
        ensures
            r@ =~= Seq::<PlayerInfoV>::empty(),
            r.wf(),
    {
        PlayerLedger { players: Vec::new() }
    }

    pub fn len(&self) -> (n: usize)
        ensures
            n == self@.len(),
    {
        self.players.len()
    }

    /// The ticket index the next buy will be assigned.
    pub fn next_index(&self) -> (n: u64)
        requires
            self@.len() < u64::MAX,
        ensures
            n == self@.len() + 1,
    {
        (self.players.len() as u64) + 1
    }

    /// Whether the address already holds an entry: the double-buy check.
    pub fn contains_address(&self, addr: &String) -> (r: bool)
        ensures
            r == self.spec_contains(addr@),
    {
        let n = self.players.len();
        let mut i: usize = 0;
        while i < n
            invariant
                0 <= i <= n,
                n == self@.len(),
                forall|j: int| 0 <= j < i ==> (#[trigger] self@[j]).player_addr != addr@,
            decreases n - i,
        {
            if self.players[i].player_addr == *addr {
                proof {
                    assert(self@[i as int].player_addr == addr@);
                }
                return true;
            }
            i = i + 1;
        }
        false
    }

    /// The entry of an address, where one exists.
    pub fn get_by_address(&self, addr: &String) -> (r: Option<&PlayerInfo>)
        ensures
            match r {
                Some(p) => {
                    &&& p@.player_addr == addr@
                    &&& exists|i: int| 0 <= i < self@.len() && (#[trigger] self@[i]) == p@
                },
                None => !self.spec_contains(addr@),
            },
    {
        let n = self.players.len();
        let mut i: usize = 0;
        while i < n
            invariant
                0 <= i <= n,
                n == self@.len(),
                forall|j: int| 0 <= j < i ==> (#[trigger] self@[j]).player_addr != addr@,
            decreases n - i,
        {
            if self.players[i].player_addr == *addr {
                proof {
                    assert(self@[i as int].player_addr == addr@);
                }
                return Some(&self.players[i]);
            }
            i = i + 1;
        }
        None
    }

    /// The entry holding ticket index `idx`, where `1 <= idx <= len`.
    pub fn get_by_index(&self, idx: u64) -> (r: Option<&PlayerInfo>)
        ensures
            match r {
                Some(p) => 1 <= idx <= self@.len() && p@ == self@[idx - 1],
                None => idx == 0 || idx > self@.len(),
            },
    {
        let n = self.players.len();
        if idx >= 1 && idx <= n as u64 {
            let i: usize = (idx as usize) - 1;
            Some(&self.players[i])
        } else {
            None
        }
    }

    /// Records a new entry. The caller assigns it the next ticket index and
    /// has ruled out a second entry for the same address.
    pub fn append(&mut self, entry: PlayerInfo)
        requires
            old(self).wf(),
            !old(self).spec_contains(entry@.player_addr),
            entry@.ticket_id == dec_digits((old(self)@.len() + 1) as nat),
        ensures
            final(self)@ == old(self)@.push(entry@),
            final(self).wf(),
    {
        self.players.push(entry);
        proof {
            assert(final(self)@ =~= old(self)@.push(entry@));
        }
    }
}

} // verus!
