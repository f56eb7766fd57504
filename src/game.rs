use vstd::prelude::*;

use crate::grid::{delta, fits_i32, plus, Cell, MoveType, Point};

verus! {

/// Whether the snake moves on each logic tick.
#[derive(Clone, Copy, PartialEq, Eq, Debug, Structural)]
pub enum State {
    Playing,
    Paused,
}

/// One operation on the game state.
#[derive(Clone, Copy, PartialEq, Eq, Debug, Structural)]
pub enum Command {
    /// Head in the given direction from the next tick on.
    Turn(MoveType),
    /// Switch between playing and paused.
    TogglePause,
    /// Advance the game by one logic tick.
    Tick,
}

/// The whole game, as mathematical values.
pub struct GameView {
    /// Snake segments, head first.
    pub body: Seq<Cell>,
    pub direction: MoveType,
    pub food: Cell,
    pub state: State,
}

pub open spec fn toggled_state(s: State) -> State {
    match s {
        State::Playing => State::Paused,
        State::Paused => State::Playing,
    }
}

impl GameView {
    /// The state every game starts in.
    pub open spec fn initial() -> GameView {
        GameView {
            body: seq![(3int, 1int), (2int, 1int), (1int, 1int)],
            direction: MoveType::Right,
            food: (3, 3),
            state: State::Paused,
        }
    }

    /// The snake always has a head.
    pub open spec fn wf(self) -> bool {
        self.body.len() > 0
    }

    /// Where the head goes on the next tick while playing.
    pub open spec fn next_head(self) -> Cell {
        plus(self.body[0], delta(self.direction))
    }

    /// The next tick keeps every coordinate within `i32`.
    pub open spec fn tick_fits(self) -> bool {
        self.state == State::Paused || (fits_i32(self.next_head().0) && fits_i32(
            self.next_head().1,
        ))
    }

    /// One logic tick: while playing, a new head one step ahead is put in
    /// front and the tail cell is dropped; while paused, nothing changes.
    pub open spec fn tick(self) -> GameView {
        if self.state == State::Paused {
            self
        } else {
            GameView {
                body: seq![self.next_head()] + self.body.drop_last(),
                direction: self.direction,
                food: self.food,
                state: self.state,
            }
        }
    }

    pub open spec fn with_direction(self, d: MoveType) -> GameView {
        GameView { body: self.body, direction: d, food: self.food, state: self.state }
    }

    pub open spec fn toggled(self) -> GameView {
        GameView {
            body: self.body,
            direction: self.direction,
            food: self.food,
            state: toggled_state(self.state),
        }
    }

    pub open spec fn apply(self, cmd: Command) -> GameView {
        match cmd {
            Command::Turn(d) => self.with_direction(d),
            Command::TogglePause => self.toggled(),
            Command::Tick => self.tick(),
        }
    }

    /// The state after applying `cmds` in order.
    pub open spec fn run(self, cmds: Seq<Command>) -> GameView
        decreases cmds.len(),
    {
        if cmds.len() == 0 {
            self
        } else {
            self.apply(cmds[0]).run(cmds.drop_first())
        }
    }
}

/// The game: snake body (head first), heading, food cell and play state.
pub struct GameContext {
    pub position: Vec<Point>,
    pub player_direction: MoveType,
    pub food: Point,
    pub state: State,
}

impl View for GameContext {
    type V = GameView;

    open spec fn view(&self) -> GameView {
        GameView {
            body: self.position@.map_values(|p: Point| p.cell()),
            direction: self.player_direction,
            food: self.food.cell(),
            state: self.state,
        }
    }
}

impl GameContext {
    pub open spec fn wf(&self) -> bool {
        self.position.len() > 0
    }

    /// A paused three-segment snake heading right, with food at (3, 3).
    pub fn new() -> (r: GameContext)
        ensures
            r.wf(),
            r@ == GameView::initial(),
    {
        let r = GameContext {
            position: vec![Point(3, 1), Point(2, 1), Point(1, 1)],
            player_direction: MoveType::Right,
            food: Point(3, 3),
            state: State::Paused,
        };
        assert(r@.body =~= GameView::initial().body);
        r
    }

    /// Whether [`GameContext::next_tick`] can run without leaving the
    /// coordinate range.
    pub fn can_tick(&self) -> (r: bool)
        requires
            self.wf(),
        ensures
            r == self@.tick_fits(),
    {
        match self.state {
            State::Paused => true,
            State::Playing => {
                let step = self.player_direction.delta();
                let head = self.position[0];
                head.0.checked_add(step.0).is_some() && head.1.checked_add(step.1).is_some()
            },
        }
    }

    /// Advances the game by one logic tick: nothing happens while paused;
    /// while playing the snake slides one cell in its current direction,
    /// keeping its length.
    pub fn next_tick(&mut self)
        requires
            old(self).wf(),
            old(self)@.tick_fits(),
        ensures
            final(self).wf(),
            final(self)@ == old(self)@.tick(),
    {
        if let State::Paused = self.state {
            return;
        }
        let head = self.position[0];
        let next = head.add(self.player_direction.delta());
        self.position.pop();
        self.position.insert(0, next);
        assert(self@.body =~= old(self)@.tick().body);
    }

    /// Sets the heading, whatever it was and whether or not the game is paused.
    pub fn set_direction(&mut self, d: MoveType)
        ensures
            final(self)@ == old(self)@.with_direction(d),
            final(self).position == old(self).position,
    {
        self.player_direction = d;
    }

    pub fn move_up(&mut self)
        ensures
            final(self)@ == old(self)@.with_direction(MoveType::Up),
            final(self).position == old(self).position,
    {
        self.set_direction(MoveType::Up);
    }

    pub fn move_down(&mut self)
        ensures
            final(self)@ == old(self)@.with_direction(MoveType::Down),
            final(self).position == old(self).position,
    {
        self.set_direction(MoveType::Down);
    }

    pub fn move_right(&mut self)
        ensures
            final(self)@ == old(self)@.with_direction(MoveType::Right),
            final(self).position == old(self).position,
    {
        self.set_direction(MoveType::Right);
    }

    pub fn move_left(&mut self)
        ensures
            final(self)@ == old(self)@.with_direction(MoveType::Left),
            final(self).position == old(self).position,
    {
        self.set_direction(MoveType::Left);
    }

    /// Switches between playing and paused; nothing else changes.
    pub fn toggle_pause(&mut self)
        ensures
            final(self)@ == old(self)@.toggled(),
            final(self).position == old(self).position,
    {
        self.state = match self.state {
            State::Playing => State::Paused,
            State::Paused => State::Playing,
        };
    }

    /// Carries out one command.
    pub fn apply(&mut self, cmd: Command)
        requires
            old(self).wf(),
            cmd == Command::Tick ==> old(self)@.tick_fits(),
        ensures
            final(self).wf(),
            final(self)@ == old(self)@.apply(cmd),
    {
        match cmd {
            Command::Turn(d) => self.set_direction(d),
            Command::TogglePause => self.toggle_pause(),
            Command::Tick => self.next_tick(),
        }
    }
}

/// A tick while paused changes nothing: body, direction, food and state stay.
pub proof fn lemma_tick_paused_is_noop(v: GameView)
    requires
        v.state == State::Paused,
    ensures
        v.tick() == v,
        v.tick().tick() == v,
{
}

/// A tick while playing keeps the length, puts the old head plus the
/// direction's step in front, drops the old tail, and moves every other
/// segment one place towards the tail.
pub proof fn lemma_tick_playing_slides(v: GameView)
    requires
        v.wf(),
        v.state == State::Playing,
    ensures
        v.tick().body.len() == v.body.len(),
        v.tick().body[0] == plus(v.body[0], delta(v.direction)),
        forall|i: int| 1 <= i < v.body.len() ==> #[trigger] v.tick().body[i] == v.body[i - 1],
        v.tick().direction == v.direction,
        v.tick().food == v.food,
        v.tick().state == v.state,
{
}

/// Toggling the pause twice gives back the original state.
pub proof fn lemma_toggle_twice(v: GameView)
    ensures
        v.toggled().toggled() == v,
        v.toggled().state != v.state,
{
}

/// Setting a direction overwrites the previous one whatever it and the play
/// state were, and setting the same direction again changes nothing.
pub proof fn lemma_set_direction_overwrites(v: GameView, d: MoveType, e: MoveType)
    ensures
        v.with_direction(d).direction == d,
        v.with_direction(d).with_direction(d) == v.with_direction(d),
        v.with_direction(e).with_direction(d) == v.with_direction(d),
        v.with_direction(d).state == v.state,
        v.with_direction(d).body == v.body,
{
}

/// No sequence of commands moves the food or changes the snake's length.
pub proof fn lemma_food_fixed(v: GameView, cmds: Seq<Command>)
    requires
        v.wf(),
    ensures
        v.run(cmds).food == v.food,
        v.run(cmds).body.len() == v.body.len(),
        v.run(cmds).wf(),
    decreases cmds.len(),
{
    if cmds.len() > 0 {
        lemma_food_fixed(v.apply(cmds[0]), cmds.drop_first());
    }
}

/// Every state reached from the start has its food at (3, 3).
pub proof fn lemma_food_fixed_from_start(cmds: Seq<Command>)
    ensures
        GameView::initial().run(cmds).food == (3int, 3int),
        GameView::initial().run(cmds).body.len() == 3,
{
    lemma_food_fixed(GameView::initial(), cmds);
}

} // verus!
