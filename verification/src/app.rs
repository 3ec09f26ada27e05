//! State of the interactive bracket viewer and its reaction to keys.
//!
//! The viewer shows the first-round games (round 1) of the bracket; one of
//! them is selected. From the bracket the user opens a game's detail, asks
//! for a prediction there, and reads it in the prediction view.
use vstd::prelude::*;
use vstd::string::*;
use crate::models::{Matchup, Team};
use crate::screen;
use crate::text::{decimal_string, i64_to_string};

verus! {

/// A key press, as the viewer tells keys apart.
#[derive(Debug, Clone, Copy, PartialEq, Eq, Structural)]
pub enum Key {
    Char(char),
    Up,
    Down,
    Enter,
    Esc,
    Other,
}

/// What the viewer asks its host to do after a key.
#[derive(Debug, Clone, Copy, PartialEq, Eq, Structural)]
pub enum Action {
    /// Nothing beyond the state change.
    Nothing,
    /// Run the prediction model on a game and report back with
    /// `App::set_prediction` or `App::prediction_failed`.
    Predict { matchup_id: i64, season: i64 },
}

/// The viewer's state; `P` is the prediction result that it displays.
pub struct App<P> {
    pub view: screen::View,
    pub teams: Vec<Team>,
    pub matchups: Vec<Matchup>,
    /// Currently selected game, a position among the first-round games.
    pub selected_matchup: usize,
    /// Latest prediction result (if any).
    pub prediction: Option<P>,
    /// Status message shown in the footer.
    pub status: String,
    /// Whether the viewer should quit.
    pub should_quit: bool,
    /// Current season.
    pub season: i64,
    /// Path of the database.
    pub db_path: String,
}

/// Footer text of the bracket view.
pub open spec fn bracket_status() -> Seq<char> {
    "↑↓ navigate  Enter select game  p predict  q quit"@
}

/// Footer text of the game view.
pub open spec fn game_status() -> Seq<char> {
    "p: predict   Esc: back to bracket"@
}

/// Footer text while the model runs.
pub open spec fn running_status() -> Seq<char> {
    "Running prediction..."@
}

/// Footer text after a prediction: the winner and the confidence in percent.
pub open spec fn prediction_status(winner: Seq<char>, confidence_pct: i64) -> Seq<char> {
    "Prediction: "@ + winner + " wins ("@ + decimal_string(confidence_pct as int) + "% confidence)"@
}

/// Footer text after a failed prediction.
pub open spec fn failure_status(error: Seq<char>) -> Seq<char> {
    "Prediction failed: "@ + error + " (run `fetch` and `globals` first)"@
}

/// The first-round games, in stored order.
pub open spec fn first_round(ms: Seq<Matchup>) -> Seq<Matchup> {
    ms.filter(|m: Matchup| m.round == 1)
}

/// Selection after moving up among `count` games: one up, from the top to the bottom.
pub open spec fn up_selection(sel: usize, count: int) -> usize {
    if count == 0 {
        sel
    } else if sel > 0 {
        (sel - 1) as usize
    } else {
        (count - 1) as usize
    }
}

/// Selection after moving down among `count` games: one down, from the bottom to the top.
pub open spec fn down_selection(sel: usize, count: int) -> usize {
    if count == 0 {
        sel
    } else {
        ((sel + 1) % count) as usize
    }
}

/// The view that "back" leads to.
pub open spec fn back_view(v: screen::View) -> screen::View {
    match v {
        screen::View::Prediction => screen::View::GameDetail,
        screen::View::GameDetail => screen::View::Bracket,
        screen::View::Bracket => screen::View::Bracket,
    }
}

/// Position of the first team with `id`, from `start` on.
pub open spec fn first_team_with_id(teams: Seq<Team>, id: i64, start: int) -> Option<int>
    decreases teams.len() - start,
{
    if start < 0 || start >= teams.len() {
        None
    } else if teams[start].id == id {
        Some(start)
    } else {
        first_team_with_id(teams, id, start + 1)
    }
}

/// The key is the character `c`.
pub open spec fn is_char(key: Key, c: char) -> bool {
    key matches Key::Char(k) && k == c
}

/// The key quits the viewer in any view.
pub open spec fn is_quit_key(key: Key) -> bool {
    is_char(key, 'q') || is_char(key, 'Q')
}

impl<P> App<P> {
    /// The game that the selection stands on: the `selected_matchup`-th
    /// first-round game, if there is one.
    pub open spec fn selected_spec(&self) -> Option<Matchup> {
        let r64 = first_round(self.matchups@);
        if self.selected_matchup < r64.len() {
            Some(r64[self.selected_matchup as int])
        } else {
            None
        }
    }

    /// A viewer on the bracket view, with the first game selected and the bracket footer.
    pub fn new(teams: Vec<Team>, matchups: Vec<Matchup>, season: i64, db_path: String) -> (res: Self)
        ensures
            res.view == screen::View::Bracket,
            res.teams == teams,
            res.matchups == matchups,
            res.selected_matchup == 0,
            res.prediction is None,
            res.status@ == bracket_status(),
            !res.should_quit,
            res.season == season,
            res.db_path == db_path,
    {
        App {
            view: screen::View::Bracket,
            teams,
            matchups,
            selected_matchup: 0,
            prediction: None,
            status: String::from_str("↑↓ navigate  Enter select game  p predict  q quit"),
            should_quit: false,
            season,
            db_path,
        }
    }

    /// The first-round games (only these are shown in the bracket view).
    pub fn r64_matchups(&self) -> (res: Vec<&Matchup>)
        ensures
            res@.len() == first_round(self.matchups@).len(),
            forall|k: int| 0 <= k < res@.len() ==> *(#[trigger] res@[k]) == first_round(self.matchups@)[k],
    {
        let ghost pred = |m: Matchup| m.round == 1;
        let n = self.matchups.len();
        let mut out: Vec<&Matchup> = Vec::new();
        let mut k: usize = 0;
        while k < n
            invariant
                k <= n,
                n == self.matchups@.len(),
                pred == (|m: Matchup| m.round == 1),
                out@.len() == self.matchups@.take(k as int).filter(pred).len(),
                forall|j: int|
                    0 <= j < out@.len() ==> *(#[trigger] out@[j]) == self.matchups@.take(k as int).filter(pred)[j],
            decreases n - k,
        {
            let m = &self.matchups[k];
            if m.round == 1 {
                out.push(m);
            }
            proof {
                reveal_with_fuel(Seq::<_>::filter, 2);
                let t = self.matchups@.take(k + 1);
                assert(t.drop_last() =~= self.matchups@.take(k as int));
                assert(t.last() == *m);
            }
            k = k + 1;
        }
        assert(self.matchups@.take(n as int) =~= self.matchups@);
        out
    }

    /// The selected game, if the selection stands on one.
    pub fn selected_matchup(&self) -> (res: Option<&Matchup>)
        ensures
            match res {
                Some(m) => self.selected_spec() == Some(*m),
                None => self.selected_spec() is None,
            },
    {
        let r64 = self.r64_matchups();
        if self.selected_matchup < r64.len() {
            Some(r64[self.selected_matchup])
        } else {
            None
        }
    }

    /// The first team with the given id.
    pub fn team_by_id(&self, id: i64) -> (res: Option<&Team>)
        ensures
            match res {
                Some(t) => exists|i: int|
                    first_team_with_id(self.teams@, id, 0) == Some(i) && *t == self.teams@[i],
                None => first_team_with_id(self.teams@, id, 0) is None,
            },
    {
        let n = self.teams.len();
        let mut i: usize = 0;
        while i < n
            invariant
                i <= n,
                n == self.teams@.len(),
                first_team_with_id(self.teams@, id, 0) == first_team_with_id(self.teams@, id, i as int),
            decreases n - i,
        {
            if self.teams[i].id == id {
                return Some(&self.teams[i]);
            }
            i = i + 1;
        }
        None
    }

    /// Moves the selection one game up, wrapping from the first game to the last.
    pub fn navigate_up(&mut self)
        ensures
            *final(self) == (App {
                selected_matchup: up_selection(
                    old(self).selected_matchup,
                    first_round(old(self).matchups@).len() as int,
                ),
                ..*old(self)
            }),
    {
        let r64_count = self.r64_matchups().len();
        if r64_count == 0 {
            return;
        }
        if self.selected_matchup > 0 {
            self.selected_matchup = self.selected_matchup - 1;
        } else {
            self.selected_matchup = r64_count - 1;
        }
    }

    /// Moves the selection one game down, wrapping from the last game to the first.
    pub fn navigate_down(&mut self)
        ensures
            *final(self) == (App {
                selected_matchup: down_selection(
                    old(self).selected_matchup,
                    first_round(old(self).matchups@).len() as int,
                ),
                ..*old(self)
            }),
    {
        let r64_count = self.r64_matchups().len();
        if r64_count == 0 {
            return;
        }
        let within = self.selected_matchup % r64_count;
        proof {
            vstd::arithmetic::div_mod::lemma_add_mod_noop(self.selected_matchup as int, 1, r64_count as int);
            vstd::arithmetic::div_mod::lemma_add_mod_noop(within as int, 1, r64_count as int);
            vstd::arithmetic::div_mod::lemma_mod_twice(self.selected_matchup as int, r64_count as int);
        }
        self.selected_matchup = (within + 1) % r64_count;
    }

    /// Shows a prediction: keeps it, switches to the prediction view and
    /// reports the predicted winner and the confidence (in whole percent).
    pub fn set_prediction(&mut self, result: P, winner_name: &str, confidence_pct: i64)
        ensures
            final(self).status@ == prediction_status(winner_name@, confidence_pct),
            final(self).prediction == Some(result),
            final(self).view == screen::View::Prediction,
            final(self).teams == old(self).teams,
            final(self).matchups == old(self).matchups,
            final(self).selected_matchup == old(self).selected_matchup,
            final(self).should_quit == old(self).should_quit,
            final(self).season == old(self).season,
            final(self).db_path == old(self).db_path,
    {
        let mut status = String::from_str("Prediction: ");
        status.append(winner_name);
        status.append(" wins (");
        let pct = i64_to_string(confidence_pct);
        status.append(pct.as_str());
        status.append("% confidence)");
        self.status = status;
        self.prediction = Some(result);
        self.view = screen::View::Prediction;
    }

    /// Reports a failed prediction in the footer.
    pub fn prediction_failed(&mut self, error: &str)
        ensures
            *final(self) == (App { status: final(self).status, ..*old(self) }),
            final(self).status@ == failure_status(error@),
    {
        let mut status = String::from_str("Prediction failed: ");
        status.append(error);
        status.append(" (run `fetch` and `globals` first)");
        self.status = status;
    }

    /// Goes back one view: from the prediction to the game, from the game
    /// to the bracket (restoring the bracket footer); the bracket stays.
    pub fn go_back(&mut self)
        ensures
            final(self).view == back_view(old(self).view),
            old(self).view == screen::View::GameDetail ==> *final(self) == (App {
                view: screen::View::Bracket,
                status: final(self).status,
                ..*old(self)
            }) && final(self).status@ == bracket_status(),
            old(self).view != screen::View::GameDetail ==> *final(self) == (App {
                view: back_view(old(self).view),
                ..*old(self)
            }),
    {
        match self.view {
            screen::View::Prediction => self.view = screen::View::GameDetail,
            screen::View::GameDetail => {
                self.view = screen::View::Bracket;
                self.status = String::from_str("↑↓ navigate  Enter select game  p predict  q quit");
            },
            screen::View::Bracket => {},
        }
    }
}


// ─── Keys ───────────────────────────────────────────────────────────────────

/// The key moves the selection up.
pub open spec fn is_up_key(key: Key) -> bool {
    key == Key::Up || is_char(key, 'k')
}

/// The key moves the selection down.
pub open spec fn is_down_key(key: Key) -> bool {
    key == Key::Down || is_char(key, 'j')
}

/// The key asks for a prediction.
pub open spec fn is_predict_key(key: Key) -> bool {
    is_char(key, 'p') || is_char(key, 'P')
}

/// `new` is what a key does to `old` in the bracket view.
pub open spec fn bracket_key_post<P>(old: App<P>, new: App<P>, key: Key) -> bool {
    let count = first_round(old.matchups@).len() as int;
    if is_quit_key(key) {
        new == App { should_quit: true, ..old }
    } else if is_up_key(key) {
        new == App { selected_matchup: up_selection(old.selected_matchup, count), ..old }
    } else if is_down_key(key) {
        new == App { selected_matchup: down_selection(old.selected_matchup, count), ..old }
    } else if key == Key::Enter && old.selected_spec() is Some {
        &&& new == App { view: screen::View::GameDetail, status: new.status, ..old }
        &&& new.status@ == game_status()
    } else {
        new == old
    }
}

/// `new` is what "back" does to `old`.
pub open spec fn back_post<P>(old: App<P>, new: App<P>) -> bool {
    if old.view == screen::View::GameDetail {
        &&& new == App { view: screen::View::Bracket, status: new.status, ..old }
        &&& new.status@ == bracket_status()
    } else {
        new == App { view: back_view(old.view), ..old }
    }
}

/// `new` and `action` are what a key does to `old` in the game view.
pub open spec fn game_key_post<P>(old: App<P>, new: App<P>, key: Key, action: Action) -> bool {
    if is_quit_key(key) {
        new == App { should_quit: true, ..old } && action == Action::Nothing
    } else if key == Key::Esc {
        back_post(old, new) && action == Action::Nothing
    } else if is_predict_key(key) && old.selected_spec() is Some {
        &&& new == App { status: new.status, ..old }
        &&& new.status@ == running_status()
        &&& action == Action::Predict { matchup_id: old.selected_spec()->0.id, season: old.season }
    } else {
        new == old && action == Action::Nothing
    }
}

/// `new` is what a key does to `old` in the prediction view.
pub open spec fn prediction_key_post<P>(old: App<P>, new: App<P>, key: Key) -> bool {
    if is_quit_key(key) {
        new == App { should_quit: true, ..old }
    } else if key == Key::Esc {
        back_post(old, new)
    } else {
        new == old
    }
}

/// Tells whether the key is the character `c`.
fn key_is_char(key: Key, c: char) -> (res: bool)
    ensures
        res == is_char(key, c),
{
    match key {
        Key::Char(k) => k == c,
        _ => false,
    }
}

/// Reacts to a key in the bracket view: `q` quits, up/`k` and down/`j`
/// move the selection, Enter opens the selected game.
pub fn handle_bracket_keys<P>(app: &mut App<P>, key: Key)
    ensures
        bracket_key_post(*old(app), *final(app), key),
{
    if key_is_char(key, 'q') || key_is_char(key, 'Q') {
        app.should_quit = true;
    } else if key == Key::Up || key_is_char(key, 'k') {
        app.navigate_up();
    } else if key == Key::Down || key_is_char(key, 'j') {
        app.navigate_down();
    } else if key == Key::Enter {
        if app.selected_matchup().is_some() {
            app.view = screen::View::GameDetail;
            app.status = String::from_str("p: predict   Esc: back to bracket");
        }
    }
}

/// Reacts to a key in the game view: `q` quits, Esc goes back, `p` asks
/// the host to run the prediction for the selected game.
pub fn handle_game_keys<P>(app: &mut App<P>, key: Key) -> (action: Action)
    ensures
        game_key_post(*old(app), *final(app), key, action),
{
    if key_is_char(key, 'q') || key_is_char(key, 'Q') {
        app.should_quit = true;
        Action::Nothing
    } else if key == Key::Esc {
        app.go_back();
        Action::Nothing
    } else if key_is_char(key, 'p') || key_is_char(key, 'P') {
        match app.selected_matchup() {
            Some(matchup) => {
                let matchup_id = matchup.id;
                let season = app.season;
                app.status = String::from_str("Running prediction...");
                Action::Predict { matchup_id, season }
            },
            None => Action::Nothing,
        }
    } else {
        Action::Nothing
    }
}

/// Reacts to a key in the prediction view: `q` quits, Esc goes back.
pub fn handle_prediction_keys<P>(app: &mut App<P>, key: Key)
    ensures
        prediction_key_post(*old(app), *final(app), key),
{
    if key_is_char(key, 'q') || key_is_char(key, 'Q') {
        app.should_quit = true;
    } else if key == Key::Esc {
        app.go_back();
    }
}

/// Reacts to one key press: Ctrl+C always quits; then the key goes to the
/// handler of the current view. Returns what the host must do next.
pub fn handle_key<P>(app: &mut App<P>, key: Key, ctrl: bool) -> (action: Action)
    ensures
        ({
            let quit = old(app).should_quit || (ctrl && is_char(key, 'c'));
            let start = App { should_quit: quit, ..*old(app) };
            match old(app).view {
                screen::View::Bracket => bracket_key_post(start, *final(app), key) && action
                    == Action::Nothing,
                screen::View::GameDetail => game_key_post(start, *final(app), key, action),
                screen::View::Prediction => prediction_key_post(start, *final(app), key) && action
                    == Action::Nothing,
            }
        }),
        ctrl && is_char(key, 'c') ==> final(app).should_quit,
        is_quit_key(key) ==> final(app).should_quit,
        old(app).should_quit ==> final(app).should_quit,
{
    if ctrl && key_is_char(key, 'c') {
        app.should_quit = true;
    }
    match app.view {
        screen::View::Bracket => {
            handle_bracket_keys(app, key);
            Action::Nothing
        },
        screen::View::GameDetail => handle_game_keys(app, key),
        screen::View::Prediction => {
            handle_prediction_keys(app, key);
            Action::Nothing
        },
    }
}

// ─── Laws of navigation ─────────────────────────────────────────────────────

/// Moving up and down keeps a selection that stands on a game on a game.
pub proof fn lemma_selection_stays_in_range(sel: usize, count: int)
    requires
        0 <= sel < count,
        count <= usize::MAX,
    ensures
        up_selection(sel, count) < count,
        down_selection(sel, count) < count,
{
}

/// Moving down undoes moving up, and moving up undoes moving down.
pub proof fn lemma_up_down_inverse(sel: usize, count: int)
    requires
        0 <= sel < count,
        count <= usize::MAX,
    ensures
        down_selection(up_selection(sel, count), count) == sel,
        up_selection(down_selection(sel, count), count) == sel,
{
    if sel + 1 < count {
        assert((sel + 1) % count == sel + 1) by (nonlinear_arith)
            requires 0 <= sel + 1 < count;
    } else {
        assert((sel + 1) % count == 0) by (nonlinear_arith)
            requires sel + 1 == count, count > 0;
    }
    if sel > 0 {
        assert((sel as int) % count == sel) by (nonlinear_arith)
            requires 0 <= sel < count;
    } else {
        assert(count % count == 0) by (nonlinear_arith)
            requires count > 0;
    }
}


/// Selection after moving down `k` times among `count` games.
pub open spec fn down_steps(sel: usize, count: int, k: nat) -> usize
    decreases k,
{
    if k == 0 {
        sel
    } else {
        down_selection(down_steps(sel, count, (k - 1) as nat), count)
    }
}

/// Moving down `k` times advances the selection by `k` games, wrapping
/// around; moving down as many times as there are games returns to the
/// starting game.
pub proof fn lemma_down_cycle(sel: usize, count: int, k: nat)
    requires
        0 <= sel < count,
        count <= usize::MAX,
    ensures
        down_steps(sel, count, k) == (sel + k) % count,
        down_steps(sel, count, count as nat) == sel,
{
    lemma_down_steps_mod(sel, count, k);
    lemma_down_cycle_full(sel, count);
}

/// `count` moves down from a selection among `count` games return to it.
proof fn lemma_down_cycle_full(sel: usize, count: int)
    requires
        0 <= sel < count,
        count <= usize::MAX,
    ensures
        down_steps(sel, count, count as nat) == sel,
{
    lemma_down_steps_mod(sel, count, count as nat);
    vstd::arithmetic::div_mod::lemma_mod_add_multiples_vanish(sel as int, count);
    vstd::arithmetic::div_mod::lemma_small_mod(sel as nat, count as nat);
}

/// Moving down `k` times advances the selection by `k` games, wrapping around.
proof fn lemma_down_steps_mod(sel: usize, count: int, k: nat)
    requires
        0 <= sel < count,
        count <= usize::MAX,
    ensures
        down_steps(sel, count, k) == (sel + k) % count,
    decreases k,
{
    if k > 0 {
        lemma_down_steps_mod(sel, count, (k - 1) as nat);
        let prev = down_steps(sel, count, (k - 1) as nat);
        vstd::arithmetic::div_mod::lemma_add_mod_noop(sel + k - 1, 1, count);
        vstd::arithmetic::div_mod::lemma_mod_twice(sel + k - 1, count);
        vstd::arithmetic::div_mod::lemma_mod_bound(sel + k - 1, count);
        if count == 1 {
            vstd::arithmetic::div_mod::lemma_mod_self_0(1);
            assert((prev + 1) % 1 == 0 && (sel + k) % 1 == 0) by (nonlinear_arith)
                requires prev == 0;
        } else {
            vstd::arithmetic::div_mod::lemma_small_mod(1, count as nat);
        }
    } else {
        vstd::arithmetic::div_mod::lemma_small_mod(sel as nat, count as nat);
    }
}

} // verus!
