use vstd::prelude::*;

verus! {

/// A set of clients, by client id, as a replication or synchronisation
/// target names it.
#[derive(Clone, Copy, Debug, PartialEq, Eq, Structural)]
pub enum NetworkTarget {
    /// Exactly this client.
    Single(u64),
    /// Every client but this one.
    AllExceptSingle(u64),
}

impl NetworkTarget {
    /// Whether `client` is one of the clients named.
    pub open spec fn includes(self, client: u64) -> bool {
        match self {
            NetworkTarget::Single(c) => client == c,
            NetworkTarget::AllExceptSingle(c) => client != c,
        }
    }
}

/// Who decides the value of a replicated entity.
#[derive(Clone, Copy, Debug, PartialEq, Eq, Structural)]
pub enum AuthorityPeer {
    /// Nobody has authority.
    Nobody,
    Server,
    Client(u64),
}

/// How long a client keeps control of an entity.
#[derive(Clone, Copy, Debug, PartialEq, Eq, Structural)]
pub enum Lifetime {
    /// Until the client disconnects.
    SessionBased,
    /// For as long as the entity lives.
    Persistent,
}

/// How an entity is replicated. A field that is `None` keeps the networking
/// library's own default.
#[derive(Clone, Copy, Debug, PartialEq, Eq, Structural)]
pub struct ReplicationSettings {
    /// The clients the entity is sent to.
    pub target: Option<NetworkTarget>,
    /// Who has authority over it.
    pub authority: Option<AuthorityPeer>,
    /// The clients that predict it.
    pub prediction: Option<NetworkTarget>,
    /// The clients that interpolate it.
    pub interpolation: Option<NetworkTarget>,
    /// The clients that control it, and for how long.
    pub controlled_by: Option<NetworkTarget>,
    pub control_lifetime: Option<Lifetime>,
    /// Whether its children are replicated with it.
    pub hierarchy_enabled: Option<bool>,
    pub hierarchy_recursive: Option<bool>,
    /// The replication group it is sent in.
    pub group: Option<u64>,
}

/// The replication group of the entities that clients predict.
pub const PREDICTED_GROUP: u64 = 42;

/// How the server replicates the character of `client`: in the predicted
/// group, controlled by that client for its session, predicted by it and
/// interpolated by every other client, without its children.
pub open spec fn spec_player_replication(client: u64) -> ReplicationSettings {
    ReplicationSettings {
        target: None,
        authority: None,
        prediction: Some(NetworkTarget::Single(client)),
        interpolation: Some(NetworkTarget::AllExceptSingle(client)),
        controlled_by: Some(NetworkTarget::Single(client)),
        control_lifetime: Some(Lifetime::SessionBased),
        hierarchy_enabled: Some(false),
        hierarchy_recursive: None,
        group: Some(PREDICTED_GROUP),
    }
}

/// How the server replicates the character of `client`.
pub fn player_replication(client: u64) -> (r: ReplicationSettings)
    ensures
        r == spec_player_replication(client),
        forall|c: u64| names(r.prediction, c) || names(r.interpolation, c) ==> #[trigger] reaches(r.target, c),
{
    ReplicationSettings {
        target: None,
        authority: None,
        prediction: Some(NetworkTarget::Single(client)),
        interpolation: Some(NetworkTarget::AllExceptSingle(client)),
        controlled_by: Some(NetworkTarget::Single(client)),
        control_lifetime: Some(Lifetime::SessionBased),
        hierarchy_enabled: Some(false),
        hierarchy_recursive: None,
        group: Some(PREDICTED_GROUP),
    }
}

/// How the client `client` replicates the camera holder it attaches to its
/// own character: sent to every other client under the server's authority,
/// predicted by the owner and interpolated by the others, controlled by the
/// owner for as long as it lives, with all its children.
pub open spec fn spec_camera_holder_replication(client: u64) -> ReplicationSettings {
    ReplicationSettings {
        target: Some(NetworkTarget::AllExceptSingle(client)),
        authority: Some(AuthorityPeer::Server),
        prediction: Some(NetworkTarget::Single(client)),
        interpolation: Some(NetworkTarget::AllExceptSingle(client)),
        controlled_by: Some(NetworkTarget::Single(client)),
        control_lifetime: Some(Lifetime::Persistent),
        hierarchy_enabled: Some(true),
        hierarchy_recursive: Some(true),
        group: None,
    }
}

/// How a client replicates the camera holder of its own character.
pub fn camera_holder_replication(client: u64) -> (r: ReplicationSettings)
    ensures
        r == spec_camera_holder_replication(client),
        forall|c: u64| #[trigger] reaches(r.target, c) <==> c != client,
        forall|c: u64| #[trigger] names(r.prediction, c) <==> c == client,
{
    ReplicationSettings {
        target: Some(NetworkTarget::AllExceptSingle(client)),
        authority: Some(AuthorityPeer::Server),
        prediction: Some(NetworkTarget::Single(client)),
        interpolation: Some(NetworkTarget::AllExceptSingle(client)),
        controlled_by: Some(NetworkTarget::Single(client)),
        control_lifetime: Some(Lifetime::Persistent),
        hierarchy_enabled: Some(true),
        hierarchy_recursive: Some(true),
        group: None,
    }
}

/// How the server passes on a view direction that arrived with the given
/// authority: one a client owns is sent to every other client and
/// interpolated there, with that client keeping authority; any other is not
/// passed on.
pub open spec fn spec_view_direction_replication(authority: AuthorityPeer) -> Option<ReplicationSettings> {
    match authority {
        AuthorityPeer::Client(client) => Some(
            ReplicationSettings {
                target: Some(NetworkTarget::AllExceptSingle(client)),
                authority: Some(AuthorityPeer::Client(client)),
                prediction: None,
                interpolation: Some(NetworkTarget::AllExceptSingle(client)),
                controlled_by: None,
                control_lifetime: None,
                hierarchy_enabled: None,
                hierarchy_recursive: None,
                group: None,
            },
        ),
        _ => None,
    }
}

/// How the server passes on a view direction that arrived with the given
/// authority.
pub fn view_direction_replication(authority: AuthorityPeer) -> (r: Option<ReplicationSettings>)
    ensures
        r == spec_view_direction_replication(authority),
        r is Some <==> authority is Client,
        r matches Some(v) ==> v.authority == Some(authority) && forall|c: u64| #[trigger] reaches(v.target, c)
            <==> authority != AuthorityPeer::Client(c),
{
    match authority {
        AuthorityPeer::Client(client) => Some(
            ReplicationSettings {
                target: Some(NetworkTarget::AllExceptSingle(client)),
                authority: Some(AuthorityPeer::Client(client)),
                prediction: None,
                interpolation: Some(NetworkTarget::AllExceptSingle(client)),
                controlled_by: None,
                control_lifetime: None,
                hierarchy_enabled: None,
                hierarchy_recursive: None,
                group: None,
            },
        ),
        _ => None,
    }
}

/// The owner of a character or camera holder predicts it and every other
/// client interpolates it; no client does both.
pub proof fn lemma_owner_predicts_others_interpolate(owner: u64, client: u64)
    ensures
        ({
            let p = spec_player_replication(owner);
            &&& p.prediction.unwrap().includes(client) <==> client == owner
            &&& p.interpolation.unwrap().includes(client) <==> client != owner
            &&& p.controlled_by.unwrap().includes(client) <==> client == owner
        }),
        ({
            let c = spec_camera_holder_replication(owner);
            &&& c.prediction.unwrap().includes(client) <==> client == owner
            &&& c.interpolation.unwrap().includes(client) <==> client != owner
            &&& c.target.unwrap().includes(client) <==> client != owner
            &&& c.controlled_by.unwrap().includes(client) <==> client == owner
        }),
{
}

/// Whether the clients named by `target` include `client`; a target left at
/// the networking library's default names every client.
pub open spec fn reaches(target: Option<NetworkTarget>, client: u64) -> bool {
    match target {
        Some(t) => t.includes(client),
        None => true,
    }
}

/// Whether `client` is one of the clients named, where clients are named.
pub open spec fn names(target: Option<NetworkTarget>, client: u64) -> bool {
    match target {
        Some(t) => t.includes(client),
        None => false,
    }
}

/// A character is sent to every client that simulates it: its owner, which
/// predicts and controls it, and every other client, which interpolates it.
/// It is predicted in the predicted group.
pub proof fn lemma_player_sent_to_its_simulators(owner: u64, client: u64)
    ensures
        ({
            let p = spec_player_replication(owner);
            &&& names(p.prediction, client) ==> reaches(p.target, client)
            &&& names(p.interpolation, client) ==> reaches(p.target, client)
            &&& names(p.controlled_by, client) ==> names(p.prediction, client)
            &&& reaches(p.target, owner)
            &&& names(p.prediction, owner) && names(p.controlled_by, owner)
            &&& p.prediction is Some ==> p.group == Some(PREDICTED_GROUP)
        }),
{
}

/// A camera holder comes from its owner, who predicts and controls it: it is
/// sent on to every other client, under the server's authority, and each of
/// those interpolates it.
pub proof fn lemma_camera_holder_sent_to_others(owner: u64, client: u64)
    ensures
        ({
            let c = spec_camera_holder_replication(owner);
            &&& reaches(c.target, client) <==> client != owner
            &&& names(c.interpolation, client) <==> reaches(c.target, client)
            &&& names(c.prediction, client) <==> client == owner
            &&& names(c.controlled_by, client) <==> client == owner
            &&& c.authority == Some(AuthorityPeer::Server)
        }),
{
}

/// A view direction is passed on exactly when a client owns it; it then
/// keeps that client's authority and goes to, and is interpolated by, every
/// other client.
pub proof fn lemma_view_direction_passed_to_others(authority: AuthorityPeer, client: u64)
    ensures
        spec_view_direction_replication(authority) is Some <==> authority is Client,
        spec_view_direction_replication(authority) matches Some(r) ==> {
            &&& r.authority == Some(authority)
            &&& reaches(r.target, client) <==> authority != AuthorityPeer::Client(client)
            &&& names(r.interpolation, client) <==> reaches(r.target, client)
        },
{
}

/// The clients that get a new character, in request order, for this frame's
/// "level loaded" reports: every reporting client that had no character
/// when the frame began (a client that reports twice in one frame is listed
/// twice, as both reports see the same characters).
pub fn players_to_spawn(existing: &Vec<u64>, reporters: &Vec<u64>) -> (spawn: Vec<u64>)
    ensures
        spawn@ == reporters@.filter(|c: u64| !existing@.contains(c)),
{
    let mut spawn: Vec<u64> = Vec::new();
    let mut i: usize = 0;
    let ghost keep = |c: u64| !existing@.contains(c);
    proof {
        assert(reporters@.take(0) =~= Seq::<u64>::empty());
        assert(reporters@.take(0).filter(keep) =~= Seq::<u64>::empty());
    }
    while i < reporters.len()
        invariant
            i <= reporters.len(),
            keep == (|c: u64| !existing@.contains(c)),
            spawn@ == reporters@.take(i as int).filter(keep),
        decreases reporters.len() - i,
    {
        let from = reporters[i];
        let mut exists = false;
        let mut j: usize = 0;
        while j < existing.len()
            invariant
                j <= existing.len(),
                exists <==> existing@.take(j as int).contains(from),
            decreases existing.len() - j,
        {
            proof {
                let t0 = existing@.take(j as int);
                let t1 = existing@.take(j + 1);
                assert(t1 =~= t0.push(existing@[j as int]));
                if existing@[j as int] == from {
                    assert(t1[j as int] == from);
                } else if t1.contains(from) {
                    let k = choose|k: int| 0 <= k < t1.len() && t1[k] == from;
                    assert(t0[k] == from);
                }
                if t0.contains(from) {
                    let k = choose|k: int| 0 <= k < t0.len() && t0[k] == from;
                    assert(t1[k] == from);
                }
            }
            if existing[j] == from {
                exists = true;
            }
            j = j + 1;
        }
        proof {
            assert(existing@.take(existing.len() as int) =~= existing@);
            assert(reporters@.take(i + 1) =~= reporters@.take(i as int).push(from));
            reveal(Seq::filter);
            assert(reporters@.take(i + 1).drop_last() =~= reporters@.take(i as int));
        }
        if !exists {
            spawn.push(from);
        }
        i = i + 1;
    }
    proof {
        assert(reporters@.take(reporters.len() as int) =~= reporters@);
    }
    spawn
}

/// The characters, by entity, that belong to `client`: those a client-owned
/// view direction is attached to.
pub fn characters_of_client(players: &Vec<(u64, u64)>, client: u64) -> (entities: Vec<u64>)
    ensures
        entities@ == players@.filter(|p: (u64, u64)| p.1 == client).map_values(|p: (u64, u64)| p.0),
{
    let mut entities: Vec<u64> = Vec::new();
    let mut i: usize = 0;
    let ghost owned = |p: (u64, u64)| p.1 == client;
    let ghost entity = |p: (u64, u64)| p.0;
    proof {
        assert(players@.take(0) =~= Seq::<(u64, u64)>::empty());
        assert(players@.take(0).filter(owned) =~= Seq::<(u64, u64)>::empty());
        assert(entities@ =~= players@.take(0).filter(owned).map_values(entity));
    }
    while i < players.len()
        invariant
            i <= players.len(),
            owned == (|p: (u64, u64)| p.1 == client),
            entity == (|p: (u64, u64)| p.0),
            entities@ == players@.take(i as int).filter(owned).map_values(entity),
        decreases players.len() - i,
    {
        let p = players[i];
        proof {
            assert(players@.take(i + 1) =~= players@.take(i as int).push(p));
            reveal(Seq::filter);
            assert(players@.take(i + 1).drop_last() =~= players@.take(i as int));
        }
        if p.1 == client {
            entities.push(p.0);
            proof {
                let f = players@.take(i as int).filter(owned);
                assert(players@.take(i + 1).filter(owned) == f.push(p));
                assert(f.push(p).map_values(entity) =~= f.map_values(entity).push(p.0));
            }
        }
        i = i + 1;
    }
    proof {
        assert(players@.take(players.len() as int) =~= players@);
    }
    entities
}

} // verus!
