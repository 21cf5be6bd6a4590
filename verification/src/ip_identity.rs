//! Which players were seen under which address.

use vstd::prelude::*;
use vstd::string::*;

verus! {

/// An address with the players that were seen under it.
#[derive(Debug, Clone)]
pub struct IpIdentity {
    /// The address.
    pub ip: String,
    /// The identifiers of the players.
    pub players: Vec<String>,
}

/// The texts of `texts` as values.
pub open spec fn texts_view(texts: Seq<String>) -> Seq<Seq<char>> {
    texts.map_values(|s: String| s@)
}

impl View for IpIdentity {
    type V = (Seq<char>, Seq<Seq<char>>);

    open spec fn view(&self) -> (Seq<char>, Seq<Seq<char>>) {
        (self.ip@, texts_view(self.players@))
    }
}

/// Whether `text` occurs among `texts`.
pub fn contains_text(texts: &Vec<String>, text: &String) -> (r: bool)
    ensures
        r == texts_view(texts@).contains(text@),
{
    let mut i: usize = 0;
    while i < texts.len()
        invariant
            i <= texts.len(),
            forall|j: int| 0 <= j < i ==> (#[trigger] texts_view(texts@)[j]) != text@,
        decreases texts.len() - i,
    {
        if texts[i] == *text {
            assert(texts_view(texts@)[i as int] == text@);
            return true;
        }
        i += 1;
    }
    false
}

impl IpIdentity {
    /// The name of the collection that holds the identities.
    pub fn get_collection_name() -> (r: &'static str)
        ensures
            r@ == "ip_identity"@,
    {
        "ip_identity"
    }

    /// The identity to save after `player` was seen under `ip`, where
    /// `found` is the identity that was on record for the address: the
    /// record with the player added unless already there, or a new identity
    /// that holds the player alone.
    pub fn add_player_ip(found: Option<IpIdentity>, ip: &String, player: &String) -> (r: IpIdentity)
        ensures
            r@ == (match found {
                Some(identity) => (
                    identity.ip@,
                    if texts_view(identity.players@).contains(player@) {
                        texts_view(identity.players@)
                    } else {
                        texts_view(identity.players@).push(player@)
                    },
                ),
                None => (ip@, seq![player@]),
            }),
    {
        match found {
            Some(identity) => {
                let mut identity: IpIdentity = identity;
                if !contains_text(&identity.players, player) {
                    let ghost before = identity.players@;
                    identity.players.push(player.clone());
                    assert(texts_view(identity.players@) =~= texts_view(before).push(player@));
                }
                identity
            },
            None => {
                let mut players: Vec<String> = Vec::new();
                players.push(player.clone());
                assert(texts_view(players@) =~= seq![player@]);
                IpIdentity { ip: ip.clone(), players }
            },
        }
    }

    /// The identity to save when the players `players` were all seen under
    /// `ip`, where `found` is the identity that was on record for the
    /// address: the record with the players appended, or a new identity
    /// that holds them.
    pub fn merge(found: Option<IpIdentity>, ip: String, players: Vec<String>) -> (r: IpIdentity)
        ensures
            r@ == (match found {
                Some(identity) => (
                    identity.ip@,
                    texts_view(identity.players@) + texts_view(players@),
                ),
                None => (ip@, texts_view(players@)),
            }),
    {
        match found {
            Some(identity) => {
                let mut identity: IpIdentity = identity;
                let mut players: Vec<String> = players;
                let ghost before = identity.players@;
                let ghost added = players@;
                identity.players.append(&mut players);
                assert(texts_view(identity.players@) =~= texts_view(before) + texts_view(added));
                identity
            },
            None => IpIdentity { ip, players },
        }
    }
}

/// The identities of `identities` as values.
pub open spec fn identities_view(identities: Seq<IpIdentity>) -> Seq<(Seq<char>, Seq<Seq<char>>)> {
    identities.map_values(|identity: IpIdentity| identity@)
}

/// Whether the address `ip` has an identity among `identities`.
pub open spec fn has_ip(identities: Seq<(Seq<char>, Seq<Seq<char>>)>, ip: Seq<char>) -> bool {
    exists|i: int| 0 <= i < identities.len() && (#[trigger] identities[i]).0 == ip
}

/// A place at which the identity of the address `ip` stands, where it has one.
pub open spec fn ip_index(identities: Seq<(Seq<char>, Seq<Seq<char>>)>, ip: Seq<char>) -> int {
    choose|i: int| 0 <= i < identities.len() && (#[trigger] identities[i]).0 == ip
}

/// Whether no address has two identities.
pub open spec fn has_distinct_ips(identities: Seq<(Seq<char>, Seq<Seq<char>>)>) -> bool {
    forall|i: int, j: int|
        0 <= i < identities.len() && 0 <= j < identities.len() && i != j ==> (
        #[trigger] identities[i]).0 != (#[trigger] identities[j]).0
}

/// The identities after `player` was seen under `ip`: the player is
/// appended to the identity of the address, which is begun where there was
/// none.
pub open spec fn with_sighting(
    identities: Seq<(Seq<char>, Seq<Seq<char>>)>,
    ip: Seq<char>,
    player: Seq<char>,
) -> Seq<(Seq<char>, Seq<Seq<char>>)> {
    if has_ip(identities, ip) {
        let at = ip_index(identities, ip);
        identities.update(at, (ip, identities[at].1.push(player)))
    } else {
        identities.push((ip, seq![player]))
    }
}

/// The identities after `player` was seen under each of the addresses
/// `ips`, in order.
pub open spec fn with_sightings(
    identities: Seq<(Seq<char>, Seq<Seq<char>>)>,
    ips: Seq<Seq<char>>,
    player: Seq<char>,
) -> Seq<(Seq<char>, Seq<Seq<char>>)>
    decreases ips.len(),
{
    if ips.len() == 0 {
        identities
    } else {
        with_sighting(with_sightings(identities, ips.drop_last(), player), ips.last(), player)
    }
}

/// Identities gathered from the addresses of players, and the number of
/// players taken in since they were last handed out.
#[derive(Debug)]
pub struct IpAccumulator {
    /// The identities gathered; no address has two.
    pub identities: Vec<IpIdentity>,
    /// How many players were taken in.
    pub accumulated: u32,
}

impl View for IpAccumulator {
    type V = Seq<(Seq<char>, Seq<Seq<char>>)>;

    open spec fn view(&self) -> Seq<(Seq<char>, Seq<Seq<char>>)> {
        identities_view(self.identities@)
    }
}

impl IpAccumulator {
    /// No address has two identities.
    pub open spec fn wf(&self) -> bool {
        has_distinct_ips(self@)
    }

    /// Nothing gathered yet.
    pub fn new() -> (r: IpAccumulator)
        ensures
            r.wf(),
            r@ == Seq::<(Seq<char>, Seq<Seq<char>>)>::empty(),
            r.accumulated == 0,
    {
        let r = IpAccumulator { identities: Vec::new(), accumulated: 0 };
        assert(r@ =~= Seq::<(Seq<char>, Seq<Seq<char>>)>::empty());
        r
    }

    /// Takes in that `player` was seen under `ip`.
    pub fn record(&mut self, ip: &String, player: &String)
        requires
            old(self).wf(),
        ensures
            final(self).wf(),
            final(self)@ == with_sighting(old(self)@, ip@, player@),
            final(self).accumulated == old(self).accumulated,
    {
        let ghost before = self@;
        let mut i: usize = 0;
        while i < self.identities.len()
            invariant
                i <= self.identities.len(),
                *self == *old(self),
                before == self@,
                has_distinct_ips(before),
                forall|j: int| 0 <= j < i ==> (#[trigger] before[j]).0 != ip@,
            decreases self.identities.len() - i,
        {
            if self.identities[i].ip == *ip {
                proof {
                    assert(before[i as int].0 == ip@);
                    assert(has_ip(before, ip@));
                    let found = ip_index(before, ip@);
                    assert(before[found].0 == before[i as int].0);
                    assert(found == i);
                }
                let mut identity: IpIdentity = self.identities.remove(i);
                let ghost players = identity.players@;
                identity.players.push(player.clone());
                assert(texts_view(identity.players@) =~= texts_view(players).push(player@));
                self.identities.insert(i, identity);
                let ghost after = with_sighting(before, ip@, player@);
                assert(self@ =~= after);
                assert(has_distinct_ips(after)) by {
                    assert forall|a: int, b: int|
                        0 <= a < after.len() && 0 <= b < after.len() && a != b implies (
                    #[trigger] after[a]).0 != (#[trigger] after[b]).0 by {
                        assert(after[a].0 == before[a].0);
                        assert(after[b].0 == before[b].0);
                    }
                }
                return ;
            }
            i += 1;
        }
        let mut players: Vec<String> = Vec::new();
        players.push(player.clone());
        assert(texts_view(players@) =~= seq![player@]);
        self.identities.push(IpIdentity { ip: ip.clone(), players });
        let ghost after = with_sighting(before, ip@, player@);
        assert(self@ =~= after);
        assert(has_distinct_ips(after)) by {
            assert forall|a: int, b: int|
                0 <= a < after.len() && 0 <= b < after.len() && a != b implies (
            #[trigger] after[a]).0 != (#[trigger] after[b]).0 by {
                if a < before.len() {
                    assert(after[a] == before[a]);
                }
                if b < before.len() {
                    assert(after[b] == before[b]);
                }
            }
        }
    }

    /// Takes in a player that was seen under each of the addresses `ips`.
    pub fn record_player(&mut self, player: &String, ips: &Vec<String>)
        requires
            old(self).wf(),
            old(self).accumulated < u32::MAX,
        ensures
            final(self).wf(),
            final(self)@ == with_sightings(old(self)@, texts_view(ips@), player@),
            final(self).accumulated == old(self).accumulated + 1,
    {
        let ghost all = texts_view(ips@);
        let mut i: usize = 0;
        assert(all.take(0) =~= Seq::empty());
        while i < ips.len()
            invariant
                i <= ips.len(),
                all == texts_view(ips@),
                self.wf(),
                self.accumulated == old(self).accumulated,
                self@ == with_sightings(old(self)@, all.take(i as int), player@),
            decreases ips.len() - i,
        {
            proof {
                let next = all.take(i + 1);
                assert(next.drop_last() =~= all.take(i as int));
                assert(next.last() == ips@[i as int]@);
            }
            self.record(&ips[i], player);
            i += 1;
        }
        assert(all.take(i as int) =~= all);
        self.accumulated = self.accumulated + 1;
    }

    /// Hands out the identities gathered and begins anew.
    pub fn take(&mut self) -> (r: Vec<IpIdentity>)
        ensures
            identities_view(r@) == old(self)@,
            final(self).wf(),
            final(self)@ == Seq::<(Seq<char>, Seq<Seq<char>>)>::empty(),
            final(self).accumulated == 0,
    {
        let ghost before = self@;
        let mut out: Vec<IpIdentity> = Vec::new();
        out.append(&mut self.identities);
        self.accumulated = 0;
        assert(self@ =~= Seq::<(Seq<char>, Seq<Seq<char>>)>::empty());
        assert(identities_view(out@) =~= before);
        out
    }
}

} // verus!
