use vstd::prelude::*;

verus! {

/// The levels a server can ask its clients to load.
#[derive(Clone, Copy, Debug, PartialEq, Eq, Structural)]
pub enum Level {
    Example,
    Void,
}

/// How far the assets of the current level have come.
#[derive(Clone, Copy, Debug, PartialEq, Eq, Structural)]
pub enum LevelState {
    Unloaded,
    Loading,
    /// Post-processing the loaded scene: the step the loading check passes
    /// through on its way to `Loaded`.
    Postprocess,
    Loaded,
}

impl Default for LevelState {
    /// Nothing is loaded at first.
    fn default() -> (s: Self)
        ensures
            s == LevelState::Unloaded,
    {
        LevelState::Unloaded
    }
}

/// The scene every level needs: scene 0 of the character model file.
pub open spec fn spec_character_scene() -> Seq<char> {
    "scenes/example_character.glb#Scene0"@
}

/// Scene 0 of the example level's map file.
pub open spec fn spec_example_map_scene() -> Seq<char> {
    "scenes/example_map.glb#Scene0"@
}

/// The scenes a level needs, in load order: the character, then the level's
/// own map where it has one.
pub open spec fn spec_level_scenes(level: Level) -> Seq<Seq<char>> {
    match level {
        Level::Example => seq![spec_character_scene(), spec_example_map_scene()],
        Level::Void => seq![spec_character_scene()],
    }
}

/// Every level loads the character scene first; the example level then
/// loads its map scene, and the empty level nothing more.
pub proof fn lemma_level_scenes(level: Level)
    ensures
        spec_level_scenes(level)[0] == "scenes/example_character.glb#Scene0"@,
        level == Level::Example ==> spec_level_scenes(level).len() == 2 && spec_level_scenes(level)[1]
            == "scenes/example_map.glb#Scene0"@,
        level == Level::Void ==> spec_level_scenes(level).len() == 1,
{
}

/// What a change of level starts: loading each listed scene and queueing
/// its handle for the loading check, then entering the loading state.
#[derive(Clone, Debug, PartialEq, Eq)]
pub struct LevelLoadPlan {
    pub scenes: Vec<&'static str>,
    pub next_state: LevelState,
}

/// What happens when the current level may have changed: nothing when it did
/// not; else every scene the level needs (the character, and the example
/// level's map) is loaded and queued for the loading check, and the assets
/// enter the loading state.
pub fn level_load_plan(changed: bool, level: Level) -> (r: Option<LevelLoadPlan>)
    ensures
        r is None <==> !changed,
        r matches Some(p) ==> {
            &&& p.next_state == LevelState::Loading
            &&& p.scenes@.len() == spec_level_scenes(level).len()
            &&& forall|i: int| 0 <= i < p.scenes@.len() ==> #[trigger] p.scenes@[i]@
                == spec_level_scenes(level)[i]
        },
{
    if !changed {
        return None;
    }
    let mut scenes: Vec<&'static str> = Vec::new();
    scenes.push("scenes/example_character.glb#Scene0");
    if level == Level::Example {
        scenes.push("scenes/example_map.glb#Scene0");
    }
    Some(LevelLoadPlan { scenes, next_state: LevelState::Loading })
}

/// Every queued handle is among the loaded ones.
pub open spec fn all_queued_loaded(queued: Seq<u64>, loaded: Seq<u64>) -> bool {
    forall|i: int| 0 <= i < queued.len() ==> loaded.contains(#[trigger] queued[i])
}

/// The meshes of a level scene as plain values, where the scene is present.
pub open spec fn mesh_view(mesh_entities: Option<&Vec<(u64, bool)>>) -> Option<Seq<(u64, bool)>> {
    match mesh_entities {
        Some(v) => Some(v@),
        None => None,
    }
}

/// The handles, by id, of the assets the current level is waiting for.
#[derive(Clone, Debug, PartialEq, Eq)]
pub struct LoadingAssets {
    pub handles: Vec<u64>,
}

impl Default for LoadingAssets {
    /// Nothing is waited for at first.
    fn default() -> (a: Self)
        ensures
            a.handles@.len() == 0,
    {
        LoadingAssets::new()
    }
}

impl LoadingAssets {
    /// Nothing is waited for at first.
    pub fn new() -> (a: LoadingAssets)
        ensures
            a.handles@.len() == 0,
    {
        LoadingAssets { handles: Vec::new() }
    }

    /// Waits for one more asset as well.
    pub fn queue(&mut self, handle: u64)
        ensures
            final(self).handles@ == old(self).handles@.push(handle),
    {
        self.handles.push(handle);
    }

    /// The loading check, given the handles whose assets have loaded, the
    /// current level and the meshes of its scene (see [`postprocess`]): once
    /// every queued asset has loaded, nothing is waited for any more, the
    /// loaded scene is post-processed and the level is `Loaded`; until then
    /// nothing changes.
    pub fn check(
        &mut self,
        loaded: &Vec<u64>,
        level: Level,
        mesh_entities: Option<&Vec<(u64, bool)>>,
    ) -> (r: Option<PostprocessOutcome>)
        ensures
            r is Some <==> all_queued_loaded(old(self).handles@, loaded@),
            r matches Some(o) ==> o.next_state == LevelState::Loaded
                && o.collider_entities@ == spec_collider_entities(level, mesh_view(mesh_entities)),
            r is Some ==> final(self).handles@.len() == 0,
            r is None ==> final(self).handles@ == old(self).handles@,
    {
        let mut i: usize = 0;
        while i < self.handles.len()
            invariant
                i <= self.handles.len(),
                forall|k: int| 0 <= k < i ==> loaded@.contains(#[trigger] self.handles@[k]),
            decreases self.handles.len() - i,
        {
            let h = self.handles[i];
            let mut found = false;
            let mut j: usize = 0;
            while j < loaded.len()
                invariant
                    j <= loaded.len(),
                    found ==> loaded@.contains(h),
                    !found ==> forall|k: int| 0 <= k < j ==> loaded@[k] != h,
                decreases loaded.len() - j,
            {
                if loaded[j] == h {
                    found = true;
                    proof {
                        assert(loaded@[j as int] == h);
                    }
                }
                j = j + 1;
            }
            if !found {
                proof {
                    assert(self.handles@[i as int] == h);
                    assert(!loaded@.contains(h));
                }
                return None;
            }
            i = i + 1;
        }
        self.handles = Vec::new();
        Some(postprocess(level, mesh_entities))
    }
}

/// The entities of the level scene that get a collider at post-processing:
/// for the example level with its scene present, every entity with a mesh
/// whose mesh asset is available, in scene order; none otherwise.
pub open spec fn spec_collider_entities(level: Level, mesh_entities: Option<Seq<(u64, bool)>>) -> Seq<u64> {
    match (level, mesh_entities) {
        (Level::Example, Some(es)) => es.filter(|e: (u64, bool)| e.1).map_values(|e: (u64, bool)| e.0),
        _ => Seq::<u64>::empty(),
    }
}

/// Post-processing gives a collider to exactly the entities of the example
/// level's scene whose mesh is available, each once per mesh entry and in
/// scene order, and to nothing in the empty level or when the scene is
/// absent.
pub proof fn lemma_colliders(level: Level, es: Seq<(u64, bool)>)
    ensures
        spec_collider_entities(level, None).len() == 0,
        level == Level::Void ==> spec_collider_entities(level, Some(es)).len() == 0,
        level == Level::Example ==> spec_collider_entities(level, Some(es)).len() <= es.len(),
        level == Level::Example ==> forall|i: int| 0 <= i < es.len() && #[trigger] es[i].1
            ==> spec_collider_entities(level, Some(es)).contains(es[i].0),
        level == Level::Example ==> forall|j: int| 0 <= j < spec_collider_entities(level, Some(es)).len()
            ==> es.contains((#[trigger] spec_collider_entities(level, Some(es))[j], true)),
{
    let ready = |e: (u64, bool)| e.1;
    let entity = |e: (u64, bool)| e.0;
    let f = es.filter(ready);
    let r = spec_collider_entities(level, Some(es));
    es.lemma_filter_len(ready);
    if level == Level::Example {
        assert(r == f.map_values(entity));
        assert(r.len() == f.len());
        assert forall|i: int| 0 <= i < es.len() && #[trigger] es[i].1 implies r.contains(es[i].0) by {
            es.lemma_filter_contains(ready, i);
            let k = choose|k: int| 0 <= k < f.len() && f[k] == es[i];
            assert(r[k] == es[i].0);
        }
        assert forall|j: int| 0 <= j < r.len() implies es.contains((#[trigger] r[j], true)) by {
            es.lemma_filter_pred(ready, j);
            assert(f.contains(f[j]));
            es.lemma_filter_contains_rev(ready, f[j]);
            assert(f[j] == (r[j], true));
        }
    }
}

/// What post-processing does: adds colliders to some entities, then the
/// level is loaded.
#[derive(Clone, Debug, PartialEq, Eq)]
pub struct PostprocessOutcome {
    pub collider_entities: Vec<u64>,
    pub next_state: LevelState,
}

/// Post-processing of the loaded level, given the entities with a mesh in
/// its scene (each with whether its mesh asset is available), or `None`
/// where the scene is not present: colliders go to the entities of
/// [`spec_collider_entities`], and the level is then loaded in every case.
pub fn postprocess(level: Level, mesh_entities: Option<&Vec<(u64, bool)>>) -> (r: PostprocessOutcome)
    ensures
        r.next_state == LevelState::Loaded,
        r.collider_entities@ == spec_collider_entities(level, mesh_view(mesh_entities)),
{
    match (level, mesh_entities) {
        (Level::Example, Some(v)) => PostprocessOutcome {
            collider_entities: meshes_ready(v),
            next_state: LevelState::Loaded,
        },
        _ => PostprocessOutcome { collider_entities: Vec::new(), next_state: LevelState::Loaded },
    }
}

/// The entities whose mesh asset is available, in order.
fn meshes_ready(mesh_entities: &Vec<(u64, bool)>) -> (targets: Vec<u64>)
    ensures
        targets@ == mesh_entities@.filter(|e: (u64, bool)| e.1).map_values(|e: (u64, bool)| e.0),
{
    let mut targets: Vec<u64> = Vec::new();
    let ghost ready = |e: (u64, bool)| e.1;
    let ghost entity = |e: (u64, bool)| e.0;
    proof {
        assert(mesh_entities@.take(0) =~= Seq::<(u64, bool)>::empty());
        assert(mesh_entities@.take(0).filter(ready) =~= Seq::<(u64, bool)>::empty());
        assert(targets@ =~= mesh_entities@.take(0).filter(ready).map_values(entity));
    }
    let mut i: usize = 0;
    while i < mesh_entities.len()
        invariant
            i <= mesh_entities.len(),
            ready == (|e: (u64, bool)| e.1),
            entity == (|e: (u64, bool)| e.0),
            targets@ == mesh_entities@.take(i as int).filter(ready).map_values(entity),
        decreases mesh_entities.len() - i,
    {
        let e = mesh_entities[i];
        proof {
            assert(mesh_entities@.take(i + 1) =~= mesh_entities@.take(i as int).push(e));
            reveal(Seq::filter);
            assert(mesh_entities@.take(i + 1).drop_last() =~= mesh_entities@.take(i as int));
        }
        if e.1 {
            targets.push(e.0);
            proof {
                let f = mesh_entities@.take(i as int).filter(ready);
                assert(mesh_entities@.take(i + 1).filter(ready) == f.push(e));
                assert(f.push(e).map_values(entity) =~= f.map_values(entity).push(e.0));
            }
        }
        i = i + 1;
    }
    proof {
        assert(mesh_entities@.take(mesh_entities.len() as int) =~= mesh_entities@);
    }
    targets
}

/// Where a client is in its session with a server.
#[derive(Clone, Copy, Debug, PartialEq, Eq, Structural)]
pub enum GameState {
    MainMenu,
    Hosting,
    ConnectingSelf,
    ConnectingRemote,
    Loading,
    Spawning,
    Playing,
}

/// What happens to a client.
#[derive(Clone, Copy, Debug, PartialEq, Eq, Structural)]
pub enum GameEvent {
    /// The client started hosting a server of its own.
    HostingStarted,
    /// The server welcomed the client, naming the level to load.
    Welcomed,
    /// The level's assets finished loading.
    LevelLoaded,
    /// The client's own character arrived from the server.
    LocalPlayerSpawned,
    /// The connection to the server ended.
    Disconnected,
}

/// The state a client moves to on an event, or `None` where the event does
/// not move it: a client that starts hosting connects to itself; a welcome
/// while connecting starts loading; loaded assets lead to spawning; its own
/// character while spawning starts play; a disconnection returns to the
/// main menu.
pub open spec fn spec_next_game_state(state: GameState, event: GameEvent) -> Option<GameState> {
    match event {
        GameEvent::HostingStarted => if state == GameState::Hosting {
            Some(GameState::ConnectingSelf)
        } else {
            None
        },
        GameEvent::Welcomed => if state == GameState::ConnectingRemote || state
            == GameState::ConnectingSelf {
            Some(GameState::Loading)
        } else {
            None
        },
        GameEvent::LevelLoaded => Some(GameState::Spawning),
        GameEvent::LocalPlayerSpawned => if state == GameState::Spawning {
            Some(GameState::Playing)
        } else {
            None
        },
        GameEvent::Disconnected => Some(GameState::MainMenu),
    }
}

/// The state a client moves to on an event, or `None` where it stays.
pub fn next_game_state(state: GameState, event: GameEvent) -> (r: Option<GameState>)
    ensures
        r == spec_next_game_state(state, event),
{
    match event {
        GameEvent::HostingStarted => if state == GameState::Hosting {
            Some(GameState::ConnectingSelf)
        } else {
            None
        },
        GameEvent::Welcomed => if state == GameState::ConnectingRemote || state
            == GameState::ConnectingSelf {
            Some(GameState::Loading)
        } else {
            None
        },
        GameEvent::LevelLoaded => Some(GameState::Spawning),
        GameEvent::LocalPlayerSpawned => if state == GameState::Spawning {
            Some(GameState::Playing)
        } else {
            None
        },
        GameEvent::Disconnected => Some(GameState::MainMenu),
    }
}

/// A disconnection always returns to the main menu, and play is only ever
/// entered from spawning.
pub proof fn lemma_game_state_transitions(state: GameState, event: GameEvent)
    ensures
        event == GameEvent::Disconnected ==> spec_next_game_state(state, event) == Some(
            GameState::MainMenu,
        ),
        spec_next_game_state(state, event) == Some(GameState::Playing) ==> state
            == GameState::Spawning && event == GameEvent::LocalPlayerSpawned,
{
}

/// A session runs in order: a hosting client connects to itself, a
/// connecting client that is welcomed loads, a loaded level leads to
/// spawning, and its own character starts play. A welcome moves only a
/// connecting client, starting to host moves only a hosting one, and only
/// a disconnection leads back to the main menu.
pub proof fn lemma_session_order(state: GameState, event: GameEvent)
    ensures
        spec_next_game_state(GameState::Hosting, GameEvent::HostingStarted) == Some(
            GameState::ConnectingSelf,
        ),
        spec_next_game_state(GameState::ConnectingSelf, GameEvent::Welcomed) == Some(GameState::Loading),
        spec_next_game_state(GameState::ConnectingRemote, GameEvent::Welcomed) == Some(
            GameState::Loading,
        ),
        spec_next_game_state(GameState::Loading, GameEvent::LevelLoaded) == Some(GameState::Spawning),
        spec_next_game_state(GameState::Spawning, GameEvent::LocalPlayerSpawned) == Some(
            GameState::Playing,
        ),
        event == GameEvent::Welcomed ==> (spec_next_game_state(state, event) is Some <==> (state
            == GameState::ConnectingSelf || state == GameState::ConnectingRemote)),
        event == GameEvent::HostingStarted ==> (spec_next_game_state(state, event) is Some <==> state
            == GameState::Hosting),
        spec_next_game_state(state, event) == Some(GameState::MainMenu) ==> event
            == GameEvent::Disconnected,
{
}

/// The level to load after this frame's welcome messages: the last one's
/// level wins; with no welcome, nothing changes (and the client stays in its
/// state).
pub fn welcomed_level(levels: &Vec<Level>) -> (r: Option<Level>)
    ensures
        r == (if levels@.len() > 0 {
            Some(levels@.last())
        } else {
            None::<Level>
        }),
{
    let n = levels.len();
    if n == 0 {
        None
    } else {
        Some(levels[n - 1])
    }
}

/// What a client does with its local-player marks when characters arrive
/// without being replicated from elsewhere: every current mark is removed,
/// the single new character (if there is exactly one) is marked, and play
/// starts exactly when one is marked.
#[derive(Clone, Debug, PartialEq, Eq)]
pub struct LocalPlayerUpdate {
    pub unmark: Vec<u64>,
    pub mark: Option<u64>,
    pub enter_playing: bool,
}

/// The entities marked as the local player after `unmark` loses its marks
/// and `mark` gains one.
pub open spec fn marks_after(marked: Set<u64>, unmark: Seq<u64>, mark: Option<u64>) -> Set<u64> {
    let kept = marked.difference(unmark.to_set());
    match mark {
        Some(p) => kept.insert(p),
        None => kept,
    }
}

/// The character to mark as the local player: the single new character if
/// there is exactly one, else none.
pub open spec fn spec_local_mark(new_players: Seq<u64>) -> Option<u64> {
    if new_players.len() == 1 {
        Some(new_players[0])
    } else {
        None
    }
}

/// The local-player update, given the entities marked now and the
/// characters that arrived this frame without being replicated from
/// elsewhere.
pub fn local_player_update(marked: &Vec<u64>, new_players: &Vec<u64>) -> (u: LocalPlayerUpdate)
    ensures
        u.unmark@ == marked@,
        u.mark == spec_local_mark(new_players@),
        u.enter_playing == u.mark is Some,
        u.mark is Some <==> new_players@.len() == 1,
        u.mark matches Some(p) ==> new_players@.contains(p),
        marks_after(marked@.to_set(), u.unmark@, u.mark) == match u.mark {
            Some(p) => set![p],
            None => Set::<u64>::empty(),
        },
{
    let unmark = marked.clone();
    let mark = if new_players.len() == 1 {
        Some(new_players[0])
    } else {
        None
    };
    proof {
        lemma_at_most_one_local_player(marked@, new_players@);
        lemma_local_mark(new_players@);
    }
    LocalPlayerUpdate { unmark, mark, enter_playing: mark.is_some() }
}

/// A character is marked as the local player only when it is the one
/// character that arrived, and then it is.
pub proof fn lemma_local_mark(new_players: Seq<u64>)
    ensures
        spec_local_mark(new_players) is Some <==> new_players.len() == 1,
        new_players.len() == 1 ==> spec_local_mark(new_players) == Some(new_players[0]),
        spec_local_mark(new_players) matches Some(p) ==> new_players.contains(p),
{
    if new_players.len() == 1 {
        assert(new_players[0] == new_players[0]);
    }
}

/// After a local-player update, the marked entities are exactly the newly
/// marked character, if any: at most one entity is the local player.
pub proof fn lemma_at_most_one_local_player(marked: Seq<u64>, new_players: Seq<u64>)
    ensures
        ({
            let mark = spec_local_mark(new_players);
            let after = marks_after(marked.to_set(), marked, mark);
            &&& after == (match mark {
                Some(p) => set![p],
                None => Set::<u64>::empty(),
            })
            &&& after.finite()
            &&& after.len() <= 1
        }),
{
    let mark = spec_local_mark(new_players);
    let after = marks_after(marked.to_set(), marked, mark);
    assert(marked.to_set().difference(marked.to_set()) =~= Set::<u64>::empty());
    match mark {
        Some(p) => {
            assert(after =~= set![p]);
            assert(set![p].len() == 1) by {
                assert(Set::<u64>::empty().insert(p).len() == 1);
            }
        },
        None => {
            assert(after =~= Set::<u64>::empty());
        },
    }
}

/// A change to a character's "on the ground" marker.
#[derive(Clone, Copy, Debug, PartialEq, Eq, Structural)]
pub enum GroundedChange {
    Mark,
    Unmark,
}

/// How a character's "on the ground" marker follows the ground test: it is
/// added when the character stands on the floor without it, removed when the
/// character is off the floor with it, and otherwise left alone.
pub open spec fn spec_grounded_change(on_floor: bool, marked: bool) -> Option<GroundedChange> {
    if on_floor && !marked {
        Some(GroundedChange::Mark)
    } else if !on_floor && marked {
        Some(GroundedChange::Unmark)
    } else {
        None
    }
}

/// Whether a character is marked after `change`, having been `marked`.
pub open spec fn marked_after(change: Option<GroundedChange>, marked: bool) -> bool {
    match change {
        Some(GroundedChange::Mark) => true,
        Some(GroundedChange::Unmark) => false,
        None => marked,
    }
}

/// How a character's "on the ground" marker follows the ground test.
pub fn grounded_change(on_floor: bool, marked: bool) -> (c: Option<GroundedChange>)
    ensures
        c == spec_grounded_change(on_floor, marked),
{
    if on_floor && !marked {
        Some(GroundedChange::Mark)
    } else if !on_floor && marked {
        Some(GroundedChange::Unmark)
    } else {
        None
    }
}

/// After a character's marker follows the ground test, it is marked exactly
/// when it is on the floor.
pub proof fn lemma_grounded_marker_follows(on_floor: bool, marked: bool)
    ensures
        marked_after(spec_grounded_change(on_floor, marked), marked) == on_floor,
{
}

/// Whether the in-game system menu is shown.
#[derive(Clone, Copy, Debug, PartialEq, Eq, Structural)]
pub enum SystemMenuState {
    Open,
    Closed,
}

impl Default for SystemMenuState {
    /// The menu starts closed.
    fn default() -> (s: Self)
        ensures
            s == SystemMenuState::Closed,
    {
        SystemMenuState::Closed
    }
}

impl SystemMenuState {
    /// The other state.
    pub open spec fn spec_toggled(self) -> SystemMenuState {
        match self {
            SystemMenuState::Open => SystemMenuState::Closed,
            SystemMenuState::Closed => SystemMenuState::Open,
        }
    }

    /// The other state: an open menu closes, a closed one opens.
    pub fn toggled(&self) -> (s: SystemMenuState)
        ensures
            s == self.spec_toggled(),
    {
        match self {
            SystemMenuState::Open => SystemMenuState::Closed,
            SystemMenuState::Closed => SystemMenuState::Open,
        }
    }

    /// The state the menu moves to in a frame, given whether each local
    /// player pressed the menu key: the other state if anyone pressed it
    /// (however many did), else no change.
    pub fn after_presses(&self, pressed: &Vec<bool>) -> (next: Option<SystemMenuState>)
        ensures
            next == (if exists|i: int| 0 <= i < pressed.len() && #[trigger] pressed@[i] {
                Some(self.spec_toggled())
            } else {
                None::<SystemMenuState>
            }),
    {
        let mut next: Option<SystemMenuState> = None;
        let mut i: usize = 0;
        while i < pressed.len()
            invariant
                i <= pressed.len(),
                next == (if exists|k: int| 0 <= k < i && #[trigger] pressed@[k] {
                    Some(self.spec_toggled())
                } else {
                    None::<SystemMenuState>
                }),
            decreases pressed.len() - i,
        {
            if pressed[i] {
                next = Some(self.toggled());
            }
            i = i + 1;
        }
        next
    }
}

/// Toggling the menu twice leaves it as it was.
pub proof fn lemma_toggle_twice(s: SystemMenuState)
    ensures
        s.spec_toggled().spec_toggled() == s,
        s.spec_toggled() != s,
{
}

} // verus!
