//! The application state machine. Four states drive the map's life:
//! Setup waits for a seed, Build generates the world and immediately
//! finishes, Finished hosts play, and Ledger shows the leaderboard.
//! Input events are drained once per pass from an explicit queue; the
//! current world (grid and player) is owned as one arena that is torn
//! down whole whenever Finished is exited and rebuilt whole by Build.

use vstd::prelude::*;

use crate::chain::SeedChannel;
use crate::ledger::{
    batch_well_formed, entry_fault, first_fault, parse_batch, LeaderboardStore, LedgerError,
    OnChainPlayer, RawEntry, Tables,
};
use crate::map::{generate_random_map_with_seed, grid_cells, NoiseGrid};

verus! {

/// The four application states. Build is transient: every pass that
/// reaches it generates the world and leaves for Finished at once.
#[derive(Debug, Clone, Copy, Default, PartialEq, Eq, Structural)]
pub enum AppState {
    #[default]
    Setup,
    Build,
    Finished,
    Ledger,
}

/// The player record of the current world: a grid position and the
/// cooldown timer that movement resets.
#[derive(Debug, Clone, Copy, PartialEq, Eq, Structural)]
pub struct Player {
    pub pos_x: i64,
    pub pos_y: i64,
    pub move_cooldown: u32,
}

/// The current world: the generated grid and the player on it. Created
/// whole by Build, destroyed whole when Finished is exited.
pub struct World {
    pub grid: NoiseGrid,
    pub player: Player,
}

/// One queued input event. Movement carries all directions active in
/// the tick, since simultaneously pressed keys all apply; the ledger
/// toggle carries true to show and false to hide.
#[derive(Debug, Clone, Copy, PartialEq, Eq, Structural)]
pub enum InputEvent {
    Move { up: bool, down: bool, left: bool, right: bool },
    Reset,
    ToggleLedger(bool),
    SwitchTab(Tables),
}

/// All actions that can be triggered from a menu button click.
#[derive(Debug, Clone, Copy, PartialEq, Eq, Structural)]
pub enum MenuButtonAction {
    Reset,
    Ledger,
}

/// The abstract value of a world: its cells and its player.
#[verifier::ext_equal]
pub ghost struct WorldV {
    pub cells: Seq<u64>,
    pub player: Player,
}

/// The abstract value of the whole application: the state, the seed
/// slot, the three leaderboards, the current world if one exists, and
/// the tab the ledger view shows while it is open.
#[verifier::ext_equal]
pub ghost struct AppV {
    pub state: AppState,
    pub seed: u32,
    pub economic: Seq<OnChainPlayer>,
    pub cultural: Seq<OnChainPlayer>,
    pub diplomatic: Seq<OnChainPlayer>,
    pub world: Option<WorldV>,
    pub ledger_tab: Option<Tables>,
}

impl AppV {
    /// The contents of one category's leaderboard.
    pub open spec fn board(self, category: Tables) -> Seq<OnChainPlayer> {
        match category {
            Tables::EconomicVictory => self.economic,
            Tables::CulturalVictory => self.cultural,
            Tables::DiplomaticVictory => self.diplomatic,
        }
    }
}

/// The application as first constructed: Setup, sentinel seed, empty
/// boards, no world, no ledger view.
pub open spec fn initial_app() -> AppV {
    AppV {
        state: AppState::Setup,
        seed: 0,
        economic: Seq::<OnChainPlayer>::empty(),
        cultural: Seq::<OnChainPlayer>::empty(),
        diplomatic: Seq::<OnChainPlayer>::empty(),
        world: None,
        ledger_tab: None,
    }
}

/// The world as Build creates it: the grid generated from the seed and
/// the player at the default position with its cooldown fresh.
pub open spec fn fresh_world(seed: u32) -> WorldV {
    WorldV { cells: grid_cells(seed), player: Player { pos_x: 0, pos_y: 0, move_cooldown: 0 } }
}

/// The net movement along one axis: +1, -1 or 0 as exactly one or
/// neither of the two opposing keys is active.
pub open spec fn move_delta(pos: bool, neg: bool) -> int {
    (if pos {
        1int
    } else {
        0int
    }) - (if neg {
        1int
    } else {
        0int
    })
}

/// One coordinate moved by a unit delta, saturating at the ends of the
/// coordinate range.
pub open spec fn sat_add_unit(v: i64, delta: int) -> i64 {
    if v + delta > i64::MAX {
        i64::MAX
    } else if v + delta < i64::MIN {
        i64::MIN
    } else {
        (v + delta) as i64
    }
}

/// The player after one movement event: every active direction applies
/// and the net position is the sum of their deltas; if any key is
/// active the movement cooldown is reset; with no key active nothing
/// changes.
pub open spec fn moved_player(p: Player, up: bool, down: bool, left: bool, right: bool) -> Player {
    if up || down || left || right {
        Player {
            pos_x: sat_add_unit(p.pos_x, move_delta(right, left)),
            pos_y: sat_add_unit(p.pos_y, move_delta(up, down)),
            move_cooldown: 0,
        }
    } else {
        p
    }
}

/// One event applied to the application. Movement needs a world and is
/// a no-op before Build has made one; a reset is honored in Finished
/// and tears the world down on the way to Build; the ledger toggle
/// opens the ledger from Finished (default tab: the economic board,
/// and the world is torn down since Finished is exited) and closes it
/// from Ledger; a tab switch is honored while the ledger is open.
pub open spec fn step_event(v: AppV, e: InputEvent) -> AppV {
    match e {
        InputEvent::Move { up, down, left, right } => match v.world {
            Some(w) => AppV {
                world: Some(WorldV { player: moved_player(w.player, up, down, left, right), ..w }),
                ..v
            },
            None => v,
        },
        InputEvent::Reset => if v.state == AppState::Finished {
            AppV { state: AppState::Build, world: None, ..v }
        } else {
            v
        },
        InputEvent::ToggleLedger(show) => if show && v.state == AppState::Finished {
            AppV {
                state: AppState::Ledger,
                world: None,
                ledger_tab: Some(Tables::EconomicVictory),
                ..v
            }
        } else if !show && v.state == AppState::Ledger {
            AppV { state: AppState::Finished, ledger_tab: None, ..v }
        } else {
            v
        },
        InputEvent::SwitchTab(t) => if v.state == AppState::Ledger {
            AppV { ledger_tab: Some(t), ..v }
        } else {
            v
        },
    }
}

/// A queue of events applied in order.
pub open spec fn steps(v: AppV, es: Seq<InputEvent>) -> AppV
    decreases es.len(),
{
    if es.len() == 0 {
        v
    } else {
        steps(step_event(v, es[0]), es.subrange(1, es.len() as int))
    }
}

/// The seed observation: Setup exits to Build as soon as the seed slot
/// holds anything but the sentinel 0.
pub open spec fn poll_seed(v: AppV) -> AppV {
    if v.state == AppState::Setup && v.seed != 0 {
        AppV { state: AppState::Build, ..v }
    } else {
        v
    }
}

/// The Build state resolved: the world is generated from the current
/// seed and the machine moves on to Finished in the same pass.
pub open spec fn finish_build(v: AppV) -> AppV {
    if v.state == AppState::Build {
        AppV { state: AppState::Finished, world: Some(fresh_world(v.seed)), ..v }
    } else {
        v
    }
}

/// One full processing pass: the tick's events drained in order, then
/// the automatic transitions (Setup to Build on a live seed, Build to
/// Finished through generation) resolved within the same pass.
pub open spec fn tick_spec(v: AppV, es: Seq<InputEvent>) -> AppV {
    finish_build(poll_seed(steps(v, es)))
}

/// Appending one event to a queue steps the folded result once more.
pub proof fn lemma_steps_snoc(v: AppV, es: Seq<InputEvent>, e: InputEvent)
    ensures
        steps(v, es.push(e)) == step_event(steps(v, es), e),
    decreases es.len(),
{
    if es.len() == 0 {
        assert(es.push(e)[0] == e);
        assert(es.push(e).subrange(1, 1) =~= Seq::<InputEvent>::empty());
        assert(steps(v, es.push(e)) == steps(step_event(v, e), Seq::<InputEvent>::empty()));
        assert(steps(step_event(v, e), Seq::<InputEvent>::empty()) == step_event(v, e));
    } else {
        assert(es.push(e)[0] == es[0]);
        assert(es.push(e).subrange(1, (es.len() + 1) as int) =~= es.subrange(
            1,
            es.len() as int,
        ).push(e));
        lemma_steps_snoc(step_event(v, es[0]), es.subrange(1, es.len() as int), e);
        assert(steps(v, es.push(e)) == steps(
            step_event(v, es[0]),
            es.subrange(1, es.len() as int).push(e),
        ));
        assert(steps(v, es) == steps(step_event(v, es[0]), es.subrange(1, es.len() as int)));
    }
}

impl Player {
    /// Applies one movement event to the player in place.
    pub fn apply_move(&mut self, up: bool, down: bool, left: bool, right: bool)
        ensures
            *final(self) == moved_player(*old(self), up, down, left, right),
    {
        if up || down || left || right {
            self.pos_x = step_coord(self.pos_x, right, left);
            self.pos_y = step_coord(self.pos_y, up, down);
            self.move_cooldown = 0;
        }
    }
}

/// One coordinate stepped by the net of two opposing keys, saturating
/// instead of wrapping at the ends of the range.
fn step_coord(v: i64, pos: bool, neg: bool) -> (r: i64)
    ensures
        r == sat_add_unit(v, move_delta(pos, neg)),
{
    if pos && !neg {
        if v < i64::MAX {
            v + 1
        } else {
            v
        }
    } else if neg && !pos {
        if v > i64::MIN {
            v - 1
        } else {
            v
        }
    } else {
        v
    }
}

/// The whole application: the state machine together with the stores
/// it observes and the world it owns.
pub struct App {
    pub state: AppState,
    pub seed: SeedChannel,
    pub ledger: LeaderboardStore,
    pub world: Option<World>,
    pub ledger_tab: Option<Tables>,
}

impl View for App {
    type V = AppV;

    open spec fn view(&self) -> AppV {
        AppV {
            state: self.state,
            seed: self.seed.value,
            economic: self.ledger.economic@,
            cultural: self.ledger.cultural@,
            diplomatic: self.ledger.diplomatic@,
            world: match self.world {
                Some(w) => Some(WorldV { cells: w.grid@, player: w.player }),
                None => None,
            },
            ledger_tab: self.ledger_tab,
        }
    }
}

impl App {
    /// A fresh application: Setup, no seed, empty boards, no world.
    pub fn new() -> (app: App)
        ensures
            app@ == initial_app(),
    {
        let app = App {
            state: AppState::Setup,
            seed: SeedChannel::new(),
            ledger: LeaderboardStore::new(),
            world: None,
            ledger_tab: None,
        };
        proof {
            assert(app.ledger.board(Tables::EconomicVictory) == Seq::<OnChainPlayer>::empty());
            assert(app.ledger.board(Tables::CulturalVictory) == Seq::<OnChainPlayer>::empty());
            assert(app.ledger.board(Tables::DiplomaticVictory) == Seq::<OnChainPlayer>::empty());
        }
        app
    }

    /// The host-facing seed write: overwrites the seed slot, nothing
    /// else, at any time.
    pub fn set_map_randomness(&mut self, seed: u32)
        ensures
            final(self)@ == (AppV { seed, ..old(self)@ }),
    {
        self.seed.write(seed);
    }

    /// The seed observation pass: in Setup with a non-sentinel seed the
    /// machine moves to Build; in every other case nothing changes.
    pub fn onchain_events(&mut self)
        ensures
            final(self)@ == poll_seed(old(self)@),
    {
        if self.state == AppState::Setup && self.seed.read() != 0 {
            self.state = AppState::Build;
        }
    }

    /// The Build pass: generates the world from the current seed, puts
    /// the player at the default position, and finishes.
    pub fn generate_world(&mut self)
        requires
            old(self).state == AppState::Build,
        ensures
            final(self)@ == finish_build(old(self)@),
    {
        let seed = self.seed.read();
        let grid = generate_random_map_with_seed(seed);
        self.world = Some(World { grid, player: Player { pos_x: 0, pos_y: 0, move_cooldown: 0 } });
        self.state = AppState::Finished;
    }

    /// The exit-Finished hook: destroys the entire current world (grid
    /// and player) at once; nothing else changes.
    pub fn cleanup(&mut self)
        ensures
            final(self)@ == (AppV { world: None, ..old(self)@ }),
    {
        self.world = None;
    }

    /// Applies one input event, exactly as the transition function
    /// states it.
    pub fn handle_event(&mut self, e: InputEvent)
        ensures
            final(self)@ == step_event(old(self)@, e),
    {
        match e {
            InputEvent::Move { up, down, left, right } => {
                match &mut self.world {
                    Some(w) => {
                        w.player.apply_move(up, down, left, right);
                    },
                    None => {},
                }
            },
            InputEvent::Reset => {
                if self.state == AppState::Finished {
                    self.world = None;
                    self.state = AppState::Build;
                }
            },
            InputEvent::ToggleLedger(show) => {
                if show {
                    if self.state == AppState::Finished {
                        self.world = None;
                        self.state = AppState::Ledger;
                        self.ledger_tab = Some(Tables::EconomicVictory);
                    }
                } else {
                    if self.state == AppState::Ledger {
                        self.state = AppState::Finished;
                        self.ledger_tab = None;
                    }
                }
            },
            InputEvent::SwitchTab(t) => {
                if self.state == AppState::Ledger {
                    self.ledger_tab = Some(t);
                }
            },
        }
    }

    /// One full processing pass: drains the tick's event queue in
    /// order, then resolves the automatic transitions, so Build never
    /// survives a pass.
    pub fn tick(&mut self, events: &Vec<InputEvent>)
        ensures
            final(self)@ == tick_spec(old(self)@, events@),
    {
        let mut i: usize = 0;
        #[verifier::loop_isolation(false)]
        while i < events.len()
            invariant
                i <= events@.len(),
                self@ == steps(old(self)@, events@.take(i as int)),
            decreases events@.len() - i,
        {
            let e = events[i];
            proof {
                lemma_steps_snoc(old(self)@, events@.take(i as int), e);
                assert(events@.take(i as int).push(e) =~= events@.take(i as int + 1));
            }
            self.handle_event(e);
            i += 1;
        }
        proof {
            assert(events@.take(events@.len() as int) =~= events@);
        }
        self.onchain_events();
        if self.state == AppState::Build {
            self.generate_world();
        }
    }

    /// The host-facing economic update: parses the batch and replaces
    /// the economic board whole, or rejects the batch whole.
    pub fn set_economic_victory_leaderboard(&mut self, players: Vec<RawEntry>) -> (r: Result<
        (),
        LedgerError,
    >)
        ensures
            batch_well_formed(players@) <==> r is Ok,
            r is Ok ==> final(self)@ == (AppV { economic: parse_batch(players@), ..old(self)@ }),
            r is Err ==> *final(self) == *old(self),
            r matches Err(e) ==> e == (LedgerError {
                category: Tables::EconomicVictory,
                fault: entry_fault(players@[first_fault(players@)]),
            }),
    {
        let r = self.ledger.set_checked(Tables::EconomicVictory, players);
        proof {
            if r is Ok {
                assert(self.ledger.board(Tables::EconomicVictory) == self.ledger.economic@);
                assert(self.ledger.board(Tables::CulturalVictory) == self.ledger.cultural@);
                assert(self.ledger.board(Tables::DiplomaticVictory) == self.ledger.diplomatic@);
                assert(self@ == (AppV { economic: parse_batch(players@), ..old(self)@ }));
            }
        }
        r
    }

    /// The host-facing cultural update: parses the batch and replaces
    /// the cultural board whole, or rejects the batch whole.
    pub fn set_cultural_victory_leaderboard(&mut self, players: Vec<RawEntry>) -> (r: Result<
        (),
        LedgerError,
    >)
        ensures
            batch_well_formed(players@) <==> r is Ok,
            r is Ok ==> final(self)@ == (AppV { cultural: parse_batch(players@), ..old(self)@ }),
            r is Err ==> *final(self) == *old(self),
            r matches Err(e) ==> e == (LedgerError {
                category: Tables::CulturalVictory,
                fault: entry_fault(players@[first_fault(players@)]),
            }),
    {
        let r = self.ledger.set_checked(Tables::CulturalVictory, players);
        proof {
            if r is Ok {
                assert(self.ledger.board(Tables::EconomicVictory) == self.ledger.economic@);
                assert(self.ledger.board(Tables::CulturalVictory) == self.ledger.cultural@);
                assert(self.ledger.board(Tables::DiplomaticVictory) == self.ledger.diplomatic@);
                assert(self@ == (AppV { cultural: parse_batch(players@), ..old(self)@ }));
            }
        }
        r
    }

    /// The host-facing diplomatic update: parses the batch and replaces
    /// the diplomatic board whole, or rejects the batch whole.
    pub fn set_diplomatic_victory_leaderboard(&mut self, players: Vec<RawEntry>) -> (r: Result<
        (),
        LedgerError,
    >)
        ensures
            batch_well_formed(players@) <==> r is Ok,
            r is Ok ==> final(self)@ == (AppV { diplomatic: parse_batch(players@), ..old(self)@ }),
            r is Err ==> *final(self) == *old(self),
            r matches Err(e) ==> e == (LedgerError {
                category: Tables::DiplomaticVictory,
                fault: entry_fault(players@[first_fault(players@)]),
            }),
    {
        let r = self.ledger.set_checked(Tables::DiplomaticVictory, players);
        proof {
            if r is Ok {
                assert(self.ledger.board(Tables::EconomicVictory) == self.ledger.economic@);
                assert(self.ledger.board(Tables::CulturalVictory) == self.ledger.cultural@);
                assert(self.ledger.board(Tables::DiplomaticVictory) == self.ledger.diplomatic@);
                assert(self@ == (AppV { diplomatic: parse_batch(players@), ..old(self)@ }));
            }
        }
        r
    }

    /// The rows the ledger view shows: the board of the selected tab
    /// while the ledger is open, nothing otherwise.
    pub fn displayed_rows(&self) -> (r: Option<&Vec<OnChainPlayer>>)
        ensures
            r is Some <==> self.ledger_tab is Some,
            r matches Some(rows) ==> rows@ == self@.board(self.ledger_tab.unwrap()),
    {
        match self.ledger_tab {
            Some(t) => Some(self.ledger.get(t)),
            None => None,
        }
    }
}

/// What a click on a menu button asks of the state machine: the reset
/// button requests a rebuild; the ledger button toggles the ledger,
/// asking to show it unless it is already open.
pub open spec fn menu_button_event_spec(action: MenuButtonAction, state: AppState) -> InputEvent {
    match action {
        MenuButtonAction::Reset => InputEvent::Reset,
        MenuButtonAction::Ledger => InputEvent::ToggleLedger(state != AppState::Ledger),
    }
}

/// Maps a clicked menu button to the event it queues.
pub fn menu_button_event(action: &MenuButtonAction, state: AppState) -> (e: InputEvent)
    ensures
        e == menu_button_event_spec(*action, state),
{
    match action {
        MenuButtonAction::Reset => InputEvent::Reset,
        MenuButtonAction::Ledger => InputEvent::ToggleLedger(state != AppState::Ledger),
    }
}

/// The machine invariant: the ledger view's tab exists exactly while
/// the ledger is open, and a world exists only in Finished — outside it
/// the world has been torn down and nothing leaks across states.
pub open spec fn app_inv(v: AppV) -> bool {
    &&& (v.ledger_tab is Some <==> v.state == AppState::Ledger)
    &&& (v.world is Some ==> v.state == AppState::Finished)
}

/// A fresh application satisfies the machine invariant.
pub proof fn lemma_initial_inv()
    ensures
        app_inv(initial_app()),
{
}

/// Every single event preserves the machine invariant.
pub proof fn lemma_step_preserves_inv(v: AppV, e: InputEvent)
    requires
        app_inv(v),
    ensures
        app_inv(step_event(v, e)),
{
}

/// Every full pass preserves the machine invariant.
pub proof fn lemma_tick_preserves_inv(v: AppV, es: Seq<InputEvent>)
    requires
        app_inv(v),
    ensures
        app_inv(tick_spec(v, es)),
{
    lemma_steps_preserve_inv(v, es);
}

proof fn lemma_steps_preserve_inv(v: AppV, es: Seq<InputEvent>)
    requires
        app_inv(v),
    ensures
        app_inv(steps(v, es)),
    decreases es.len(),
{
    if es.len() > 0 {
        lemma_step_preserves_inv(v, es[0]);
        lemma_steps_preserve_inv(step_event(v, es[0]), es.subrange(1, es.len() as int));
    }
}

/// Sentinel semantics: from Setup with the seed slot still 0, no event
/// queue moves the machine anywhere; it remains in Setup after the
/// whole pass.
pub proof fn lemma_setup_until_seed(v: AppV, es: Seq<InputEvent>)
    requires
        v.state == AppState::Setup,
        v.seed == 0,
    ensures
        tick_spec(v, es).state == AppState::Setup,
{
    lemma_steps_in_setup(v, es);
}

/// Seed release: from Setup with any non-zero seed, one pass reaches
/// Finished through Build and owns exactly the fresh world generated
/// from that seed, whatever events the pass drained.
pub proof fn lemma_seed_starts_build(v: AppV, es: Seq<InputEvent>)
    requires
        v.state == AppState::Setup,
        v.seed != 0,
    ensures
        tick_spec(v, es).state == AppState::Finished,
        tick_spec(v, es).world == Some(fresh_world(v.seed)),
{
    lemma_steps_in_setup(v, es);
}

/// No event moves the machine out of Setup or changes the seed: only
/// the seed observation does.
proof fn lemma_steps_in_setup(v: AppV, es: Seq<InputEvent>)
    requires
        v.state == AppState::Setup,
    ensures
        steps(v, es).state == AppState::Setup,
        steps(v, es).seed == v.seed,
    decreases es.len(),
{
    if es.len() > 0 {
        lemma_steps_in_setup(step_event(v, es[0]), es.subrange(1, es.len() as int));
    }
}

/// World-rebuild cleanup: a reset in Finished tears the old world down
/// and finishes the pass owning exactly one fresh world for the
/// current seed; everything else is untouched.
pub proof fn lemma_reset_rebuilds(v: AppV)
    requires
        v.state == AppState::Finished,
    ensures
        tick_spec(v, seq![InputEvent::Reset]) == (AppV {
            state: AppState::Finished,
            world: Some(fresh_world(v.seed)),
            ..v
        }),
{
    let es = seq![InputEvent::Reset];
    assert(es[0] == InputEvent::Reset);
    assert(es.subrange(1, 1) =~= Seq::<InputEvent>::empty());
    assert(steps(v, es) == steps(step_event(v, InputEvent::Reset), Seq::<InputEvent>::empty()));
    assert(steps(v, es) == step_event(v, InputEvent::Reset));
    assert(tick_spec(v, es) == (AppV {
        state: AppState::Finished,
        world: Some(fresh_world(v.seed)),
        ..v
    }));
}

} // verus!
