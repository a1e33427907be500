use vstd::prelude::*;
use crate::geometry::{
    Direction, Point, HEIGHT, WIDTH, contains_cell, interior, occupies, on_wall, step_spec,
};
use crate::snake::{Snake, grown, moved, turned};
use vstd::set_lib::{lemma_int_range, lemma_len_subset, set_int_range};

verus! {

/// How many food items the field holds.
pub const FOOD_COUNT: usize = 15;

/// The score that wins the game.
pub const WIN_SCORE: u32 = 20;

/// The active play time allowed, in milliseconds.
pub const TIME_LIMIT_MS: u64 = 60000;

/// How many random cells a spawn tries before it scans the field in order.
const SAMPLE_TRIES: u32 = 1000;

/// Why a game was lost.
#[derive(Clone, Copy, Debug, PartialEq, Eq, Structural)]
pub enum EndReason {
    TimeUp,
    Wall,
    SelfHit,
}

/// The state of one play.
pub struct Game {
    snake: Snake,
    food: Vec<Point>,
    score: u32,
    game_over: bool,
    game_won: bool,
    paused: bool,
    start_time: u64,
    pause_start_time: Option<u64>,
    total_pause_duration: u64,
    end_reason: Option<EndReason>,
}

/// What a game is, as the contracts see it; times are in milliseconds.
pub ghost struct GameView {
    pub body: Seq<Point>,
    pub heading: Direction,
    pub food: Seq<Point>,
    pub score: u32,
    pub over: bool,
    pub won: bool,
    pub paused: bool,
    pub start: u64,
    pub pause_start: Option<u64>,
    pub paused_total: u64,
    pub reason: Option<EndReason>,
}

impl View for Game {
    type V = GameView;

    closed spec fn view(&self) -> GameView {
        GameView {
            body: self.snake@.0,
            heading: self.snake@.1,
            food: self.food@,
            score: self.score,
            over: self.game_over,
            won: self.game_won,
            paused: self.paused,
            start: self.start_time,
            pause_start: self.pause_start_time,
            paused_total: self.total_pause_duration,
            reason: self.end_reason,
        }
    }
}

/// A cell that a new food item may take: inside the wall, off the snake and
/// off every food item.
pub open spec fn free_cell(p: Point, body: Seq<Point>, food: Seq<Point>) -> bool {
    interior(p) && !occupies(body, p.x, p.y) && !occupies(food, p.x, p.y)
}

/// No interior cell is free.
pub open spec fn field_full(body: Seq<Point>, food: Seq<Point>) -> bool {
    forall|p: Point| #[trigger] free_cell(p, body, food) ==> false
}

/// `after` is `before` with one free cell appended, or `before` itself when
/// no cell is free.
pub open spec fn spawned(body: Seq<Point>, before: Seq<Point>, after: Seq<Point>) -> bool {
    (exists|p: Point| free_cell(p, body, before) && after == before.push(p))
        || (field_full(body, before) && after == before)
}

/// Fewer pieces than the top interior row has cells cannot fill the field.
proof fn lemma_field_has_room(body: Seq<Point>, food: Seq<Point>)
    requires
        body.len() + food.len() < WIDTH - 1,
    ensures
        !field_full(body, food),
{
    if field_full(body, food) {
        let all = body + food;
        let xs = all.map_values(|p: Point| p.x as int);
        lemma_int_range(1, WIDTH as int);
        assert forall|x: int| set_int_range(1, WIDTH as int).contains(x) implies xs.to_set().contains(
            x,
        ) by {
            let p = Point { x: x as u16, y: 1 };
            assert(!free_cell(p, body, food));
            if occupies(body, p.x, p.y) {
                let i = choose|i: int| 0 <= i < body.len() && body[i] == (Point { x: p.x, y: p.y });
                assert(all[i] == body[i]);
                assert(xs[i] == x);
            } else {
                let i = choose|i: int| 0 <= i < food.len() && food[i] == (Point { x: p.x, y: p.y });
                assert(all[body.len() + i] == food[i]);
                assert(xs[body.len() + i] == x);
            }
        }
        xs.lemma_cardinality_of_set();
        lemma_len_subset(set_int_range(1, WIDTH as int), xs.to_set());
    }
}

/// While snake and food together are fewer than the cells of one interior
/// row, a spawn always adds exactly one item.
pub proof fn lemma_spawn_adds_one(body: Seq<Point>, before: Seq<Point>, after: Seq<Point>)
    requires
        body.len() + before.len() < WIDTH - 1,
        spawned(body, before, after),
    ensures
        after.len() == before.len() + 1,
        exists|p: Point| free_cell(p, body, before) && after == before.push(p),
{
    lemma_field_has_room(body, before);
}

/// `i` is the first position of `p` in `s`.
pub open spec fn first_index(s: Seq<Point>, p: Point, i: int) -> bool {
    0 <= i < s.len() && s[i] == p && forall|j: int| 0 <= j < i ==> s[j] != p
}

/// The pause and clock fields agree with each other.
pub open spec fn timing_ok(v: GameView) -> bool {
    &&& v.paused <==> v.pause_start is Some
    &&& v.start + v.paused_total <= u64::MAX
    &&& v.paused ==> v.start + v.paused_total <= v.pause_start.unwrap()
}

/// The earliest clock reading that the game can be handed next.
pub open spec fn clock_floor_spec(v: GameView) -> int {
    if v.paused {
        v.pause_start.unwrap() as int
    } else {
        v.start + v.paused_total
    }
}

/// Active play time at `now`: paused spans do not count, and while paused the
/// clock stands at the moment the pause began.
pub open spec fn active_elapsed_spec(v: GameView, now: u64) -> int {
    if v.paused {
        v.pause_start.unwrap() - v.start - v.paused_total
    } else {
        now - v.start - v.paused_total
    }
}

/// Play time left at `now`, never below zero.
pub open spec fn time_left_spec(v: GameView, now: u64) -> int {
    if active_elapsed_spec(v, now) >= TIME_LIMIT_MS {
        0
    } else {
        TIME_LIMIT_MS - active_elapsed_spec(v, now)
    }
}

/// The game after a pause toggle at `now`.
pub open spec fn toggled(v: GameView, now: u64) -> GameView {
    if v.paused {
        GameView {
            paused: false,
            pause_start: None,
            paused_total: (v.paused_total + (now - v.pause_start.unwrap())) as u64,
            ..v
        }
    } else {
        GameView { paused: true, pause_start: Some(now), ..v }
    }
}

/// What the moved head runs into, if anything: the wall first, then the
/// rest of the body.
pub open spec fn crash(body: Seq<Point>) -> Option<EndReason> {
    if on_wall(body[0]) {
        Some(EndReason::Wall)
    } else if occupies(body.drop_first(), body[0].x, body[0].y) {
        Some(EndReason::SelfHit)
    } else {
        None
    }
}

/// One simulation step of a running game that still has time: the snake
/// moves; a crash ends the game; food under the new head is eaten, grows the
/// snake, scores a point and is replaced, whether or not the snake crashed.
pub open spec fn stepped(v: GameView, w: GameView) -> bool {
    let body = moved(v.body, v.heading);
    let head = body[0];
    &&& w.heading == v.heading
    &&& w.paused == v.paused
    &&& w.start == v.start
    &&& w.pause_start == v.pause_start
    &&& w.paused_total == v.paused_total
    &&& w.over == (crash(body) is Some)
    &&& w.reason == crash(body)
    &&& if occupies(v.food, head.x, head.y) {
        &&& w.body == grown(body)
        &&& w.score == v.score + 1
        &&& w.won == (v.score + 1 >= WIN_SCORE)
        &&& exists|i: int| first_index(v.food, head, i) && spawned(grown(body), v.food.remove(i), w.food)
    } else {
        &&& w.body == body
        &&& w.score == v.score
        &&& w.won == v.won
        &&& w.food == v.food
    }
}

/// What one call of `update` at `now` does.
pub open spec fn updated(v: GameView, now: u64, w: GameView) -> bool {
    if v.over || v.paused || v.won {
        w == v
    } else if now - v.start - v.paused_total >= TIME_LIMIT_MS {
        w == GameView { over: true, reason: Some(EndReason::TimeUp), ..v }
    } else {
        stepped(v, w)
    }
}

/// Relies on rand's `thread_rng().gen_range(low..high)`: a value drawn from
/// `[low, high)`; it panics only on an empty range, which `requires` rules out.
#[verifier::external_body]
fn random_in(low: u16, high: u16) -> (r: u16)
    requires
        low < high,
    ensures
        low <= r < high,
{
    rand::Rng::gen_range(&mut rand::thread_rng(), low..high)
}

impl Game {
    /// The invariant of a game.
    pub closed spec fn wf(&self) -> bool {
        &&& self.snake.wf()
        &&& forall|i: int| 0 <= i < self.food@.len() ==> interior(#[trigger] self.food@[i])
        &&& self.snake@.0.len() == self.score + 1
        &&& self.score <= WIN_SCORE
        &&& !self.game_won ==> self.score < WIN_SCORE
        &&& self.game_over <==> self.end_reason is Some
        &&& timing_ok(self@)
    }

    /// A fresh game started at `now`: one segment at the centre heading right,
    /// no score, and the food spawned one item after another.
    pub fn new(now: u64) -> (g: Game)
        ensures
            g.wf(),
            g@.body == seq![Point { x: WIDTH / 2, y: HEIGHT / 2 }],
            g@.heading == Direction::Right,
            g@.score == 0,
            !g@.over && !g@.won && !g@.paused,
            g@.reason is None,
            g@.start == now,
            g@.pause_start is None,
            g@.paused_total == 0,
            g@.food.len() == FOOD_COUNT,
            forall|i: int| 0 <= i < g@.food.len() ==> interior(#[trigger] g@.food[i]),
            forall|i: int, j: int|
                0 <= i < j < g@.food.len() ==> g@.food[i] != g@.food[j],
            forall|i: int|
                0 <= i < g@.food.len() ==> g@.food[i] != (Point { x: WIDTH / 2, y: HEIGHT / 2 }),
    {
        let mut g = Game::with_food(Vec::new(), now);
        let mut n: usize = 0;
        while n < FOOD_COUNT
            invariant
                g.wf(),
                g@.body == seq![Point { x: WIDTH / 2, y: HEIGHT / 2 }],
                g@.heading == Direction::Right,
                g@.score == 0,
                !g@.over && !g@.won && !g@.paused,
                g@.reason is None,
                g@.start == now,
                g@.pause_start is None,
                g@.paused_total == 0,
                g@.food.len() == n <= FOOD_COUNT,
                forall|i: int, j: int|
                    0 <= i < j < g@.food.len() ==> g@.food[i] != g@.food[j],
                forall|i: int|
                    0 <= i < g@.food.len() ==> g@.food[i] != (Point { x: WIDTH / 2, y: HEIGHT / 2 }),
            decreases FOOD_COUNT - n,
        {
            let ghost before = g@;
            g.generate_food();
            proof {
                lemma_spawn_adds_one(before.body, before.food, g@.food);
                let p = choose|p: Point| free_cell(p, before.body, before.food) && g@.food == before.food.push(p);
                assert(before.body[0] == (Point { x: WIDTH / 2, y: HEIGHT / 2 }));
                assert(g@.food[g@.food.len() - 1] == p);
                if p == (Point { x: WIDTH / 2, y: HEIGHT / 2 }) {
                    assert(before.body[0] == (Point { x: p.x, y: p.y }));
                }
            }
            n = n + 1;
        }
        g
    }

    /// A fresh game started at `now` whose food is `food`.
    pub fn with_food(food: Vec<Point>, now: u64) -> (g: Game)
        requires
            forall|i: int| 0 <= i < food@.len() ==> interior(#[trigger] food@[i]),
        ensures
            g.wf(),
            g@.body == seq![Point { x: WIDTH / 2, y: HEIGHT / 2 }],
            g@.heading == Direction::Right,
            g@.food == food@,
            g@.score == 0,
            !g@.over && !g@.won && !g@.paused,
            g@.reason is None,
            g@.start == now,
            g@.pause_start is None,
            g@.paused_total == 0,
    {
        Game {
            snake: Snake::new(WIDTH / 2, HEIGHT / 2),
            food,
            score: 0,
            game_over: false,
            game_won: false,
            paused: false,
            start_time: now,
            pause_start_time: None,
            total_pause_duration: 0,
            end_reason: None,
        }
    }

    /// Whether a snake segment lies on `(x, y)`.
    pub fn is_snake(&self, x: u16, y: u16) -> (r: bool)
        ensures
            r == occupies(self@.body, x, y),
    {
        contains_cell(self.snake.body(), x, y)
    }

    /// Whether a food item lies on `(x, y)`.
    pub fn is_food(&self, x: u16, y: u16) -> (r: bool)
        ensures
            r == occupies(self@.food, x, y),
    {
        contains_cell(&self.food, x, y)
    }

    /// The first free interior cell, row by row from the top, if there is one.
    fn first_free_cell(&self) -> (r: Option<Point>)
        ensures
            r matches Some(p) ==> free_cell(p, self@.body, self@.food),
            r is None ==> field_full(self@.body, self@.food),
    {
        let mut y: u16 = 1;
        while y < HEIGHT
            invariant
                1 <= y <= HEIGHT,
                forall|p: Point| #[trigger] free_cell(p, self@.body, self@.food) ==> p.y >= y,
            decreases HEIGHT - y,
        {
            let mut x: u16 = 1;
            while x < WIDTH
                invariant
                    1 <= x <= WIDTH,
                    1 <= y < HEIGHT,
                    forall|p: Point| #[trigger] free_cell(p, self@.body, self@.food)
                        ==> p.y > y || (p.y == y && p.x >= x),
                decreases WIDTH - x,
            {
                if !self.is_snake(x, y) && !self.is_food(x, y) {
                    return Some(Point { x, y });
                }
                assert forall|p: Point| #[trigger] free_cell(p, self@.body, self@.food)
                    implies p.y > y || (p.y == y && p.x >= x + 1) by {
                    if p.y == y && p.x == x {
                        assert(p == Point { x, y });
                    }
                }
                x = x + 1;
            }
            y = y + 1;
        }
        None
    }

    /// Adds one food item on a cell that is inside the wall, off the snake
    /// and off the other food. Random cells are tried first; if none of them
    /// is free the field is scanned in order. Only a full field gets no new
    /// item; with fewer pieces than an interior row has cells, one is added.
    pub fn generate_food(&mut self)
        requires
            old(self).wf(),
        ensures
            final(self).wf(),
            spawned(old(self)@.body, old(self)@.food, final(self)@.food),
            old(self)@.body.len() + old(self)@.food.len() < WIDTH - 1
                ==> final(self)@.food.len() == old(self)@.food.len() + 1,
            final(self)@ == (GameView { food: final(self)@.food, ..old(self)@ }),
    {
        let mut tries: u32 = 0;
        while tries < SAMPLE_TRIES
            invariant
                *self == *old(self),
                self.wf(),
            decreases SAMPLE_TRIES - tries,
        {
            let x = random_in(1, WIDTH);
            let y = random_in(1, HEIGHT);
            if !self.is_snake(x, y) && !self.is_food(x, y) {
                self.food.push(Point { x, y });
                assert(free_cell(Point { x, y }, old(self)@.body, old(self)@.food));
                return;
            }
            tries = tries + 1;
        }
        match self.first_free_cell() {
            Some(p) => {
                self.food.push(p);
            },
            None => {},
        }
        proof {
            if old(self)@.body.len() + old(self)@.food.len() < WIDTH - 1 {
                lemma_spawn_adds_one(old(self)@.body, old(self)@.food, self@.food);
            }
        }
    }

    /// The position of the first food item on `p`, if any.
    fn food_index(&self, p: Point) -> (r: Option<usize>)
        ensures
            r matches Some(i) ==> first_index(self@.food, p, i as int),
            r is None ==> !occupies(self@.food, p.x, p.y),
    {
        let mut i: usize = 0;
        while i < self.food.len()
            invariant
                0 <= i <= self@.food.len(),
                forall|j: int| 0 <= j < i ==> self@.food[j] != p,
            decreases self@.food.len() - i,
        {
            if self.food[i] == p {
                return Some(i);
            }
            i = i + 1;
        }
        None
    }

    /// Advances the game by one tick at clock reading `now` (milliseconds).
    /// A paused, lost or won game is left as it is. Once the active play time
    /// reaches the limit the game is lost for want of time, and nothing
    /// moves. Otherwise the snake moves one cell; if its head is on the wall
    /// or on another segment the game is lost; and if food lies under the
    /// head it is eaten and replaced, the snake grows and the score rises,
    /// which wins the game when it reaches `WIN_SCORE`.
    pub fn update(&mut self, now: u64)
        requires
            old(self).wf(),
            now >= clock_floor_spec(old(self)@),
        ensures
            final(self).wf(),
            updated(old(self)@, now, final(self)@),
    {
        if self.game_over || self.paused || self.game_won {
            return;
        }
        let elapsed = now - self.start_time - self.total_pause_duration;
        if elapsed >= TIME_LIMIT_MS {
            self.game_over = true;
            self.end_reason = Some(EndReason::TimeUp);
            return;
        }
        let ghost v = self@;
        self.snake.move_forward();
        let head = self.snake.head();
        if head.is_wall() {
            self.game_over = true;
            self.end_reason = Some(EndReason::Wall);
        } else if self.snake.bites_itself() {
            self.game_over = true;
            self.end_reason = Some(EndReason::SelfHit);
        }
        let ghost body = self@.body;
        assert(body == moved(v.body, v.heading));
        match self.food_index(head) {
            Some(i) => {
                self.snake.grow();
                self.score = self.score + 1;
                self.food.remove(i);
                proof {
                    assert forall|j: int| 0 <= j < self.food@.len() implies interior(
                        #[trigger] self.food@[j],
                    ) by {
                        if j >= i {
                            assert(self.food@[j] == v.food[j + 1]);
                        } else {
                            assert(self.food@[j] == v.food[j]);
                        }
                    }
                }
                if self.score >= WIN_SCORE {
                    self.game_won = true;
                }
                self.generate_food();
            },
            None => {},
        }
    }

    /// Pauses a running game at `now`, or resumes a paused one, adding the
    /// length of the pause to the paused total. Works in any state.
    pub fn toggle_pause(&mut self, now: u64)
        requires
            old(self).wf(),
            now >= clock_floor_spec(old(self)@),
        ensures
            final(self).wf(),
            final(self)@ == toggled(old(self)@, now),
            clock_floor_spec(final(self)@) <= now,
    {
        if self.paused {
            match self.pause_start_time {
                Some(t) => {
                    self.total_pause_duration = self.total_pause_duration + (now - t);
                },
                None => {},
            }
            self.paused = false;
            self.pause_start_time = None;
        } else {
            self.paused = true;
            self.pause_start_time = Some(now);
        }
    }

    /// The earliest clock reading that `update` and `toggle_pause` accept.
    pub fn clock_floor(&self) -> (r: u64)
        requires
            self.wf(),
        ensures
            r == clock_floor_spec(self@),
    {
        match self.pause_start_time {
            Some(t) => t,
            None => self.start_time + self.total_pause_duration,
        }
    }

    /// Turns the snake towards `d`, unless that reverses it.
    pub fn change_direction(&mut self, d: Direction)
        requires
            old(self).wf(),
        ensures
            final(self).wf(),
            final(self)@ == (GameView { heading: turned(old(self)@.heading, d), ..old(self)@ }),
    {
        self.snake.change_direction(d);
    }

    /// The snake.
    pub fn snake(&self) -> (r: &Snake)
        ensures
            r@ == (self@.body, self@.heading),
    {
        &self.snake
    }

    /// The food items, in the order they were placed.
    pub fn food(&self) -> (r: &Vec<Point>)
        ensures
            r@ == self@.food,
            self.wf() ==> forall|i: int| 0 <= i < r@.len() ==> interior(#[trigger] r@[i]),
    {
        &self.food
    }

    /// The score.
    pub fn score(&self) -> (r: u32)
        ensures
            r == self@.score,
            self.wf() ==> self@.body.len() == r + 1 && r <= WIN_SCORE,
            self.wf() && !self@.won ==> r < WIN_SCORE,
    {
        self.score
    }

    /// Whether the game is lost.
    pub fn is_over(&self) -> (r: bool)
        ensures
            r == self@.over,
    {
        self.game_over
    }

    /// Whether the game is won.
    pub fn is_won(&self) -> (r: bool)
        ensures
            r == self@.won,
    {
        self.game_won
    }

    /// Whether the game is paused.
    pub fn is_paused(&self) -> (r: bool)
        ensures
            r == self@.paused,
    {
        self.paused
    }

    /// Whether the game is won or lost.
    pub fn is_finished(&self) -> (r: bool)
        ensures
            r == (self@.over || self@.won),
    {
        self.game_over || self.game_won
    }

    /// Why the game was lost, once it is.
    pub fn end_reason(&self) -> (r: Option<EndReason>)
        ensures
            r == self@.reason,
    {
        self.end_reason
    }

    /// The clock reading at which the game started.
    pub fn start_time(&self) -> (r: u64)
        ensures
            r == self@.start,
    {
        self.start_time
    }

    /// The total length of the pauses that have ended.
    pub fn paused_total(&self) -> (r: u64)
        ensures
            r == self@.paused_total,
    {
        self.total_pause_duration
    }

    /// Active play time at `now`; while paused, at the moment the pause began.
    pub fn active_elapsed(&self, now: u64) -> (r: u64)
        requires
            self.wf(),
            now >= clock_floor_spec(self@),
        ensures
            r == active_elapsed_spec(self@, now),
    {
        match self.pause_start_time {
            Some(t) => t - self.start_time - self.total_pause_duration,
            None => now - self.start_time - self.total_pause_duration,
        }
    }

    /// Play time left at `now`, in milliseconds, never below zero.
    pub fn time_left(&self, now: u64) -> (r: u64)
        requires
            self.wf(),
            now >= clock_floor_spec(self@),
        ensures
            r == time_left_spec(self@, now),
    {
        let elapsed = self.active_elapsed(now);
        if elapsed >= TIME_LIMIT_MS {
            0
        } else {
            TIME_LIMIT_MS - elapsed
        }
    }
}

/// Pausing at `t1` and resuming at `t2` leaves the game running again, with
/// the paused total longer by exactly `t2 - t1` and all else as it was.
pub proof fn lemma_pause_twice(v: GameView, t1: u64, t2: u64)
    requires
        timing_ok(v),
        !v.paused,
        clock_floor_spec(v) <= t1 <= t2,
    ensures
        toggled(toggled(v, t1), t2) == (GameView {
            paused_total: (v.paused_total + (t2 - t1)) as u64,
            ..v
        }),
        !toggled(toggled(v, t1), t2).paused,
        toggled(toggled(v, t1), t2).paused_total == v.paused_total + (t2 - t1),
{
}

/// Once a game is won or lost, `update` changes nothing.
pub proof fn lemma_finished_game_is_fixed(v: GameView, now: u64, w: GameView)
    requires
        v.over || v.won,
        updated(v, now, w),
    ensures
        w == v,
{
}

/// A tick that eats food scores one point, adds one segment and, while there
/// is room, leaves as many food items as before.
pub proof fn lemma_eating_keeps_food_count(v: GameView, now: u64, w: GameView)
    requires
        !v.over && !v.won && !v.paused,
        now - v.start - v.paused_total < TIME_LIMIT_MS,
        v.body.len() >= 1,
        v.body.len() + v.food.len() < WIDTH - 1,
        occupies(v.food, moved(v.body, v.heading)[0].x, moved(v.body, v.heading)[0].y),
        updated(v, now, w),
    ensures
        w.score == v.score + 1,
        w.body.len() == v.body.len() + 1,
        w.food.len() == v.food.len(),
{
    let body = moved(v.body, v.heading);
    let i = choose|i: int|
        first_index(v.food, body[0], i) && spawned(grown(body), v.food.remove(i), w.food);
    lemma_spawn_adds_one(grown(body), v.food.remove(i), w.food);
}

} // verus!
