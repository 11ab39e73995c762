//! The store as a mathematical value: three tables, the rules that hold of
//! them in every state, and what each statement does to them and answers.

use vstd::prelude::*;
use crate::error::duplicate_game_name;
use crate::ident::{hyphenated, legible};
use crate::query::{QueryView, ReplyView};
use crate::records::{GameView, UserModelView};
use crate::rows::{
    GameRowView, ModelDefinitionListRowView, ModelDefinitionRowView, UserModelListRowView,
    UserModelRowView,
};
use crate::status::Status;
use crate::text::{lemma_text_le_total, lemma_text_le_transitive, text_le};

verus! {

/// A model definition as the store holds it: with the identifier of its
/// game and its creation time.
pub struct DefinitionView {
    pub id: u128,
    pub name: Seq<char>,
    pub game_id: u128,
    pub created_at: Seq<char>,
}

/// The three tables. Each holds its rows in the order in which a listing
/// hands them out.
pub struct StoreView {
    pub games: Seq<GameView>,
    pub definitions: Seq<DefinitionView>,
    pub user_models: Seq<UserModelView>,
}

/// Creation times in ascending order.
pub open spec fn sorted(stamps: Seq<Seq<char>>) -> bool {
    forall|a: int, b: int| 0 <= a <= b < stamps.len() ==> text_le(stamps[a], stamps[b])
}

/// Where a row created at `now` goes among rows with these creation times:
/// behind the last row that was created no later.
pub open spec fn slot(stamps: Seq<Seq<char>>, now: Seq<char>) -> int
    decreases stamps.len(),
{
    if stamps.len() == 0 || text_le(stamps.last(), now) {
        stamps.len() as int
    } else {
        slot(stamps.drop_last(), now)
    }
}

/// The row of the games table that holds a game.
pub open spec fn game_row(game: GameView) -> GameRowView {
    GameRowView { id: hyphenated(game.id), name: game.name, created_at: game.created_at }
}

/// The row of the model definitions table that holds a definition.
pub open spec fn definition_row(definition: DefinitionView) -> ModelDefinitionRowView {
    ModelDefinitionRowView {
        id: hyphenated(definition.id),
        name: definition.name,
        game_id: hyphenated(definition.game_id),
    }
}

/// A definition joined with its game.
pub open spec fn listed_definition_row(
    definition: DefinitionView,
    game: GameView,
) -> ModelDefinitionListRowView {
    ModelDefinitionListRowView {
        id: hyphenated(definition.id),
        name: definition.name,
        game_id: hyphenated(game.id),
        game_name: game.name,
    }
}

/// The row of the user models table that holds a user model.
pub open spec fn user_model_row(model: UserModelView) -> UserModelRowView {
    UserModelRowView {
        id: hyphenated(model.id),
        model_definition_id: hyphenated(model.model_definition_id),
        quantity: model.quantity as i64,
        status: model.status.wire(),
        created_at: model.created_at,
        updated_at: model.updated_at,
    }
}

/// A user model joined with its definition and that definition's game.
pub open spec fn listed_user_model_row(
    model: UserModelView,
    definition: DefinitionView,
    game: GameView,
) -> UserModelListRowView {
    UserModelListRowView {
        id: hyphenated(model.id),
        model_name: definition.name,
        game_name: game.name,
        quantity: model.quantity as i64,
        status: model.status.wire(),
    }
}

/// The game at place `at` of the table has this identifier.
pub open spec fn game_at(games: Seq<GameView>, at: int, id: u128) -> bool {
    0 <= at < games.len() && games[at].id == id
}

/// The game at place `at` of the table has this name.
pub open spec fn game_named_at(games: Seq<GameView>, at: int, name: Seq<char>) -> bool {
    0 <= at < games.len() && games[at].name == name
}

/// The model definition at place `at` of the table has this identifier.
pub open spec fn definition_at(definitions: Seq<DefinitionView>, at: int, id: u128) -> bool {
    0 <= at < definitions.len() && definitions[at].id == id
}

/// The user model at place `at` of the table has this identifier.
pub open spec fn user_model_at(models: Seq<UserModelView>, at: int, id: u128) -> bool {
    0 <= at < models.len() && models[at].id == id
}

impl StoreView {
    pub open spec fn empty() -> StoreView {
        StoreView { games: Seq::empty(), definitions: Seq::empty(), user_models: Seq::empty() }
    }

    pub open spec fn game_stamps(self) -> Seq<Seq<char>> {
        Seq::new(self.games.len(), |at: int| self.games[at].created_at)
    }

    pub open spec fn definition_stamps(self) -> Seq<Seq<char>> {
        Seq::new(self.definitions.len(), |at: int| self.definitions[at].created_at)
    }

    pub open spec fn user_model_stamps(self) -> Seq<Seq<char>> {
        Seq::new(self.user_models.len(), |at: int| self.user_models[at].created_at)
    }

    pub open spec fn has_game(self, id: u128) -> bool {
        exists|at: int| game_at(self.games, at, id)
    }

    /// The game with this identifier, where there is one.
    pub open spec fn game(self, id: u128) -> GameView {
        self.games[choose|at: int| game_at(self.games, at, id)]
    }

    pub open spec fn has_game_named(self, name: Seq<char>) -> bool {
        exists|at: int| game_named_at(self.games, at, name)
    }

    pub open spec fn has_definition(self, id: u128) -> bool {
        exists|at: int| definition_at(self.definitions, at, id)
    }

    /// The model definition with this identifier, where there is one.
    pub open spec fn definition(self, id: u128) -> DefinitionView {
        self.definitions[choose|at: int| definition_at(self.definitions, at, id)]
    }

    pub open spec fn has_user_model(self, id: u128) -> bool {
        exists|at: int| user_model_at(self.user_models, at, id)
    }

    /// The user model with this identifier, where there is one.
    pub open spec fn user_model(self, id: u128) -> UserModelView {
        self.user_models[choose|at: int| user_model_at(self.user_models, at, id)]
    }

    /// No two rows of a table share an identifier, and no two games a name.
    pub open spec fn distinct(self) -> bool {
        &&& forall|a: int, b: int|
            0 <= a < b < self.games.len() ==> self.games[a].id != self.games[b].id
        &&& forall|a: int, b: int|
            0 <= a < b < self.games.len() ==> self.games[a].name != self.games[b].name
        &&& forall|a: int, b: int|
            0 <= a < b < self.definitions.len() ==> self.definitions[a].id
                != self.definitions[b].id
        &&& forall|a: int, b: int|
            0 <= a < b < self.user_models.len() ==> self.user_models[a].id
                != self.user_models[b].id
    }

    /// What holds of the tables in every state: identifiers are unique
    /// within a table, game names are unique, every definition names a
    /// game that is there, every user model names a definition that is
    /// there and has a positive quantity, and each table is in ascending
    /// order of creation time.
    pub open spec fn wf(self) -> bool {
        &&& self.distinct()
        &&& forall|at: int|
            0 <= at < self.definitions.len() ==> self.has_game(
                (#[trigger] self.definitions[at]).game_id,
            )
        &&& forall|at: int|
            0 <= at < self.user_models.len() ==> self.has_definition(
                (#[trigger] self.user_models[at]).model_definition_id,
            )
        &&& forall|at: int|
            0 <= at < self.user_models.len() ==> (#[trigger] self.user_models[at]).quantity > 0
        &&& sorted(self.game_stamps())
        &&& sorted(self.definition_stamps())
        &&& sorted(self.user_model_stamps())
    }

    /// The tables with one more game, in its place by creation time.
    pub open spec fn with_game(self, game: GameView) -> StoreView {
        StoreView {
            games: self.games.insert(slot(self.game_stamps(), game.created_at), game),
            ..self
        }
    }

    /// The tables with one more model definition, in its place by creation
    /// time.
    pub open spec fn with_definition(self, definition: DefinitionView) -> StoreView {
        StoreView {
            definitions: self.definitions.insert(
                slot(self.definition_stamps(), definition.created_at),
                definition,
            ),
            ..self
        }
    }

    /// The tables with one more user model, in its place by creation time.
    pub open spec fn with_user_model(self, model: UserModelView) -> StoreView {
        StoreView {
            user_models: self.user_models.insert(
                slot(self.user_model_stamps(), model.created_at),
                model,
            ),
            ..self
        }
    }

    /// The tables after the user model with this identifier, if there is
    /// one, got a new status at the time `now`. Nothing else changes.
    pub open spec fn with_status(self, id: u128, status: Status, now: Seq<char>) -> StoreView {
        if self.has_user_model(id) {
            let at = choose|at: int| user_model_at(self.user_models, at, id);
            StoreView {
                user_models: self.user_models.update(
                    at,
                    UserModelView { status, updated_at: now, ..self.user_models[at] },
                ),
                ..self
            }
        } else {
            self
        }
    }

    /// All games as rows, in table order.
    pub open spec fn game_rows(self) -> Seq<GameRowView> {
        Seq::new(self.games.len(), |at: int| game_row(self.games[at]))
    }

    /// All model definitions, each joined with its game, in table order.
    pub open spec fn listed_definition_rows(self) -> Seq<ModelDefinitionListRowView> {
        Seq::new(
            self.definitions.len(),
            |at: int|
                listed_definition_row(
                    self.definitions[at],
                    self.game(self.definitions[at].game_id),
                ),
        )
    }

    /// All user models, each joined with its definition and that
    /// definition's game, in table order.
    pub open spec fn listed_user_model_rows(self) -> Seq<UserModelListRowView> {
        Seq::new(
            self.user_models.len(),
            |at: int|
                listed_user_model_row(
                    self.user_models[at],
                    self.definition(self.user_models[at].model_definition_id),
                    self.game(
                        self.definition(self.user_models[at].model_definition_id).game_id,
                    ),
                ),
        )
    }

    /// What a statement does to the tables at the time `now`, and what the
    /// store answers.
    ///
    /// An insert is refused, and changes nothing, where it would break a
    /// rule of the tables. A game whose name is taken is refused with the
    /// wording that names that rule, whatever else is wrong with it. An
    /// update of a row that is not there goes through and changes nothing.
    pub open spec fn answer(self, query: QueryView, now: Seq<char>) -> (StoreView, ReplyView) {
        match query {
            QueryView::InsertGame { id, name } => {
                if self.has_game_named(name) {
                    (self, ReplyView::Failed(Some(duplicate_game_name())))
                } else if self.has_game(id) {
                    (self, ReplyView::Failed(Some("UNIQUE constraint failed: games.id"@)))
                } else {
                    (self.with_game(GameView { id, name, created_at: now }), ReplyView::Done)
                }
            },
            QueryView::SelectGame { id } => (
                self,
                ReplyView::Game(
                    if self.has_game(id) {
                        Some(game_row(self.game(id)))
                    } else {
                        None
                    },
                ),
            ),
            QueryView::SelectGames => (self, ReplyView::Games(self.game_rows())),
            QueryView::InsertModelDefinition { id, name, game_id } => {
                if self.has_definition(id) {
                    (
                        self,
                        ReplyView::Failed(
                            Some("UNIQUE constraint failed: model_definitions.id"@),
                        ),
                    )
                } else if !self.has_game(game_id) {
                    (self, ReplyView::Failed(Some("FOREIGN KEY constraint failed"@)))
                } else {
                    (
                        self.with_definition(DefinitionView { id, name, game_id, created_at: now }),
                        ReplyView::Done,
                    )
                }
            },
            QueryView::SelectModelDefinition { id } => (
                self,
                ReplyView::ModelDefinition(
                    if self.has_definition(id) {
                        Some(definition_row(self.definition(id)))
                    } else {
                        None
                    },
                ),
            ),
            QueryView::SelectModelDefinitions => (
                self,
                ReplyView::ModelDefinitions(self.listed_definition_rows()),
            ),
            QueryView::InsertUserModel { id, model_definition_id, quantity, status } => {
                if quantity <= 0 {
                    (self, ReplyView::Failed(Some("CHECK constraint failed: quantity > 0"@)))
                } else if self.has_user_model(id) {
                    (self, ReplyView::Failed(Some("UNIQUE constraint failed: user_models.id"@)))
                } else if !self.has_definition(model_definition_id) {
                    (self, ReplyView::Failed(Some("FOREIGN KEY constraint failed"@)))
                } else {
                    (
                        self.with_user_model(
                            UserModelView {
                                id,
                                model_definition_id,
                                quantity,
                                status,
                                created_at: now,
                                updated_at: now,
                            },
                        ),
                        ReplyView::Done,
                    )
                }
            },
            QueryView::SelectUserModel { id } => (
                self,
                ReplyView::UserModel(
                    if self.has_user_model(id) {
                        Some(user_model_row(self.user_model(id)))
                    } else {
                        None
                    },
                ),
            ),
            QueryView::SelectUserModels => (
                self,
                ReplyView::UserModels(self.listed_user_model_rows()),
            ),
            QueryView::UpdateUserModelStatus { id, status } => (
                self.with_status(id, status, now),
                ReplyView::Done,
            ),
        }
    }

    /// Every identifier that the answer to a statement holds reads back from
    /// its written form.
    pub open spec fn reads_back(self, query: QueryView) -> bool {
        match query {
            QueryView::SelectGame { id } => self.has_game(id) ==> legible(id),
            QueryView::SelectGames => forall|at: int|
                0 <= at < self.games.len() ==> legible((#[trigger] self.games[at]).id),
            QueryView::SelectModelDefinition { id } => self.has_definition(id) ==> legible(id)
                && legible(self.definition(id).game_id),
            QueryView::SelectModelDefinitions => forall|at: int|
                0 <= at < self.definitions.len() ==> legible(
                    (#[trigger] self.definitions[at]).id,
                ) && legible(self.definitions[at].game_id),
            QueryView::SelectUserModel { id } => self.has_user_model(id) ==> legible(id)
                && legible(self.user_model(id).model_definition_id),
            QueryView::SelectUserModels => forall|at: int|
                0 <= at < self.user_models.len() ==> legible(
                    (#[trigger] self.user_models[at]).id,
                ),
            _ => true,
        }
    }
}

/// The slot lies within the table; every row before it was created no
/// later than `now`, provided the table is in order, and every row from it
/// on was created later.
pub proof fn lemma_slot(stamps: Seq<Seq<char>>, now: Seq<char>)
    ensures
        0 <= slot(stamps, now) <= stamps.len(),
        forall|at: int| slot(stamps, now) <= at < stamps.len() ==> !text_le(stamps[at], now),
        slot(stamps, now) > 0 ==> text_le(stamps[slot(stamps, now) - 1], now),
        sorted(stamps) ==> forall|at: int|
            0 <= at < slot(stamps, now) ==> text_le(stamps[at], now),
    decreases stamps.len(),
{
    if stamps.len() == 0 || text_le(stamps.last(), now) {
        if sorted(stamps) {
            assert forall|at: int| 0 <= at < slot(stamps, now) implies text_le(
                stamps[at],
                now,
            ) by {
                lemma_text_le_transitive(stamps[at], stamps.last(), now);
            }
        }
    } else {
        let front = stamps.drop_last();
        lemma_slot(front, now);
        let k = slot(front, now);
        assert forall|at: int| k <= at < stamps.len() implies !text_le(stamps[at], now) by {
            if at < front.len() {
                assert(front[at] == stamps[at]);
            }
        }
        if k > 0 {
            assert(front[k - 1] == stamps[k - 1]);
        }
        if sorted(stamps) {
            assert forall|at: int| 0 <= at < k implies text_le(stamps[at], now) by {
                lemma_text_le_transitive(stamps[at], stamps[k - 1], now);
            }
        }
    }
}

/// A row that goes into its slot leaves the table in order.
pub proof fn lemma_slot_keeps_order(stamps: Seq<Seq<char>>, now: Seq<char>)
    requires
        sorted(stamps),
    ensures
        sorted(stamps.insert(slot(stamps, now), now)),
{
    lemma_slot(stamps, now);
    let k = slot(stamps, now);
    let after = stamps.insert(k, now);
    assert forall|a: int, b: int| 0 <= a <= b < after.len() implies text_le(
        after[a],
        after[b],
    ) by {
        if a == k && b == k {
            crate::text::lemma_text_le_reflexive(now);
        } else if a == k {
            lemma_text_le_total(stamps[b - 1], now);
        } else if b == k {
        } else if a < k && b < k {
        } else if a < k {
            assert(after[b] == stamps[b - 1]);
        } else {
            assert(after[a] == stamps[a - 1]);
            assert(after[b] == stamps[b - 1]);
        }
    }
}

/// A row created no earlier than every row of the table goes to its end.
pub proof fn lemma_slot_at_end(stamps: Seq<Seq<char>>, now: Seq<char>)
    requires
        forall|at: int| 0 <= at < stamps.len() ==> text_le(stamps[at], now),
    ensures
        slot(stamps, now) == stamps.len(),
{
}

/// Under the rules, the game with an identifier is the one row that holds
/// that identifier.
pub proof fn lemma_game_is_at(store: StoreView, at: int, id: u128)
    requires
        store.distinct(),
        game_at(store.games, at, id),
    ensures
        store.has_game(id),
        store.game(id) == store.games[at],
{
    let chosen = choose|at: int| game_at(store.games, at, id);
    if chosen < at {
        assert(store.games[chosen].id != store.games[at].id);
    } else if at < chosen {
        assert(store.games[at].id != store.games[chosen].id);
    }
}

/// Under the rules, the model definition with an identifier is the one row
/// that holds that identifier.
pub proof fn lemma_definition_is_at(store: StoreView, at: int, id: u128)
    requires
        store.distinct(),
        definition_at(store.definitions, at, id),
    ensures
        store.has_definition(id),
        store.definition(id) == store.definitions[at],
{
    let chosen = choose|at: int| definition_at(store.definitions, at, id);
    if chosen < at {
        assert(store.definitions[chosen].id != store.definitions[at].id);
    } else if at < chosen {
        assert(store.definitions[at].id != store.definitions[chosen].id);
    }
}

/// Under the rules, the user model with an identifier is the one row that
/// holds that identifier.
pub proof fn lemma_user_model_is_at(store: StoreView, at: int, id: u128)
    requires
        store.distinct(),
        user_model_at(store.user_models, at, id),
    ensures
        store.has_user_model(id),
        store.user_model(id) == store.user_models[at],
        at == choose|at: int| user_model_at(store.user_models, at, id),
{
    let chosen = choose|at: int| user_model_at(store.user_models, at, id);
    if chosen < at {
        assert(store.user_models[chosen].id != store.user_models[at].id);
    } else if at < chosen {
        assert(store.user_models[at].id != store.user_models[chosen].id);
    }
}

/// A game with a fresh identifier and a fresh name may join the tables: the
/// rules still hold, the game is there, and every other game is as it was.
pub proof fn lemma_with_game(store: StoreView, game: GameView)
    requires
        store.wf(),
        !store.has_game(game.id),
        !store.has_game_named(game.name),
    ensures
        store.with_game(game).wf(),
        store.with_game(game).has_game(game.id),
        store.with_game(game).game(game.id) == game,
        forall|id: u128| store.has_game(id) ==> store.with_game(game).has_game(id),
        forall|id: u128|
            store.has_game(id) ==> store.with_game(game).game(id) == store.game(id),
        forall|id: u128|
            #[trigger] store.with_game(game).has_game(id) ==> id == game.id || store.has_game(id),
        forall|name: Seq<char>|
            store.has_game_named(name) ==> store.with_game(game).has_game_named(name),
        store.with_game(game).has_game_named(game.name),
        forall|name: Seq<char>| #[trigger]
            store.with_game(game).has_game_named(name) ==> name == game.name
                || store.has_game_named(name),
{
    let after = store.with_game(game);
    let k = slot(store.game_stamps(), game.created_at);
    lemma_slot(store.game_stamps(), game.created_at);
    lemma_slot_keeps_order(store.game_stamps(), game.created_at);
    assert(after.game_stamps() =~= store.game_stamps().insert(k, game.created_at));
    assert(after.definition_stamps() =~= store.definition_stamps());
    assert(after.user_model_stamps() =~= store.user_model_stamps());
    assert forall|a: int| 0 <= a < after.games.len() && a != k implies game_at(store.games, 
        if a < k {
            a
        } else {
            a - 1
        },
        #[trigger] after.games[a].id,
    ) && game_named_at(store.games, 
        if a < k {
            a
        } else {
            a - 1
        },
        after.games[a].name,
    ) by {}
    assert forall|a: int, b: int| 0 <= a < b < after.games.len() implies after.games[a].id
        != after.games[b].id && after.games[a].name != after.games[b].name by {
        if a != k && b != k {
            let a0 = if a < k { a } else { a - 1 };
            let b0 = if b < k { b } else { b - 1 };
            assert(store.games[a0].id != store.games[b0].id);
            assert(store.games[a0].name != store.games[b0].name);
        }
    }
    assert forall|id: u128| store.has_game(id) implies after.has_game(id) && after.game(id)
        == store.game(id) by {
        let at = choose|at: int| game_at(store.games, at, id);
        let moved = if at < k { at } else { at + 1 };
        assert(game_at(after.games, moved, id));
        lemma_game_is_at(after, moved, id);
    }
    assert(game_at(after.games, k, game.id));
    assert(game_named_at(after.games, k, game.name));
    assert forall|name: Seq<char>| store.has_game_named(name) implies after.has_game_named(
        name,
    ) by {
        let at = choose|at: int| game_named_at(store.games, at, name);
        assert(game_named_at(after.games, if at < k { at } else { at + 1 }, name));
    }
    assert forall|name: Seq<char>| #[trigger] after.has_game_named(name) implies name
        == game.name || store.has_game_named(name) by {
        let at = choose|at: int| game_named_at(after.games, at, name);
        if at != k {
            assert(game_named_at(store.games, if at < k { at } else { at - 1 }, name));
        }
    }
    lemma_game_is_at(after, k, game.id);
    assert forall|id: u128| #[trigger] after.has_game(id) implies id == game.id
        || store.has_game(id) by {
        let at = choose|at: int| game_at(after.games, at, id);
        if at != k {
            assert(game_at(store.games, if at < k { at } else { at - 1 }, id));
        }
    }
    assert forall|at: int| 0 <= at < after.definitions.len() implies after.has_game(
        (#[trigger] after.definitions[at]).game_id,
    ) by {
        assert(store.has_game(store.definitions[at].game_id));
    }
}

/// A model definition with a fresh identifier, under a game that is there,
/// may join the tables: the rules still hold, the definition is there, and
/// every other definition is as it was.
pub proof fn lemma_with_definition(store: StoreView, definition: DefinitionView)
    requires
        store.wf(),
        !store.has_definition(definition.id),
        store.has_game(definition.game_id),
    ensures
        store.with_definition(definition).wf(),
        store.with_definition(definition).has_definition(definition.id),
        store.with_definition(definition).definition(definition.id) == definition,
        forall|id: u128|
            store.has_definition(id) ==> store.with_definition(definition).has_definition(id),
        forall|id: u128|
            store.has_definition(id) ==> store.with_definition(definition).definition(id)
                == store.definition(id),
        forall|id: u128| #[trigger]
            store.with_definition(definition).has_definition(id) ==> id == definition.id
                || store.has_definition(id),
{
    let after = store.with_definition(definition);
    let k = slot(store.definition_stamps(), definition.created_at);
    lemma_slot(store.definition_stamps(), definition.created_at);
    lemma_slot_keeps_order(store.definition_stamps(), definition.created_at);
    assert(after.definition_stamps() =~= store.definition_stamps().insert(
        k,
        definition.created_at,
    ));
    assert(after.game_stamps() =~= store.game_stamps());
    assert(after.user_model_stamps() =~= store.user_model_stamps());
    assert forall|a: int| 0 <= a < after.definitions.len() && a != k implies definition_at(store.definitions, 
        if a < k {
            a
        } else {
            a - 1
        },
        #[trigger] after.definitions[a].id,
    ) by {}
    assert forall|a: int, b: int| 0 <= a < b < after.definitions.len() implies after.definitions[a].id
        != after.definitions[b].id by {
        if a != k && b != k {
            let a0 = if a < k { a } else { a - 1 };
            let b0 = if b < k { b } else { b - 1 };
            assert(store.definitions[a0].id != store.definitions[b0].id);
        }
    }
    assert forall|id: u128| store.has_definition(id) implies after.has_definition(id)
        && after.definition(id) == store.definition(id) by {
        let at = choose|at: int| definition_at(store.definitions, at, id);
        let moved = if at < k { at } else { at + 1 };
        assert(definition_at(after.definitions, moved, id));
        lemma_definition_is_at(after, moved, id);
    }
    assert(definition_at(after.definitions, k, definition.id));
    lemma_definition_is_at(after, k, definition.id);
    assert forall|id: u128| #[trigger] after.has_definition(id) implies id == definition.id
        || store.has_definition(id) by {
        let at = choose|at: int| definition_at(after.definitions, at, id);
        if at != k {
            assert(definition_at(store.definitions, if at < k { at } else { at - 1 }, id));
        }
    }
    assert forall|at: int| 0 <= at < after.definitions.len() implies after.has_game(
        (#[trigger] after.definitions[at]).game_id,
    ) by {
        if at != k {
            let at0 = if at < k { at } else { at - 1 };
            assert(store.has_game(store.definitions[at0].game_id));
        }
    }
    assert forall|at: int| 0 <= at < after.user_models.len() implies after.has_definition(
        (#[trigger] after.user_models[at]).model_definition_id,
    ) by {
        assert(store.has_definition(store.user_models[at].model_definition_id));
    }
}

/// A user model with a fresh identifier and a positive quantity, under a
/// model definition that is there, may join the tables: the rules still
/// hold, the user model is there, and every other one is as it was.
pub proof fn lemma_with_user_model(store: StoreView, model: UserModelView)
    requires
        store.wf(),
        !store.has_user_model(model.id),
        store.has_definition(model.model_definition_id),
        model.quantity > 0,
    ensures
        store.with_user_model(model).wf(),
        store.with_user_model(model).has_user_model(model.id),
        store.with_user_model(model).user_model(model.id) == model,
        forall|id: u128|
            store.has_user_model(id) ==> store.with_user_model(model).has_user_model(id),
        forall|id: u128|
            store.has_user_model(id) ==> store.with_user_model(model).user_model(id)
                == store.user_model(id),
        forall|id: u128| #[trigger]
            store.with_user_model(model).has_user_model(id) ==> id == model.id
                || store.has_user_model(id),
{
    let after = store.with_user_model(model);
    let k = slot(store.user_model_stamps(), model.created_at);
    lemma_slot(store.user_model_stamps(), model.created_at);
    lemma_slot_keeps_order(store.user_model_stamps(), model.created_at);
    assert(after.user_model_stamps() =~= store.user_model_stamps().insert(k, model.created_at));
    assert(after.game_stamps() =~= store.game_stamps());
    assert(after.definition_stamps() =~= store.definition_stamps());
    assert forall|a: int| 0 <= a < after.user_models.len() && a != k implies user_model_at(store.user_models, 
        if a < k {
            a
        } else {
            a - 1
        },
        #[trigger] after.user_models[a].id,
    ) by {}
    assert forall|a: int, b: int| 0 <= a < b < after.user_models.len() implies after.user_models[a].id
        != after.user_models[b].id by {
        if a != k && b != k {
            let a0 = if a < k { a } else { a - 1 };
            let b0 = if b < k { b } else { b - 1 };
            assert(store.user_models[a0].id != store.user_models[b0].id);
        }
    }
    assert forall|id: u128| store.has_user_model(id) implies after.has_user_model(id)
        && after.user_model(id) == store.user_model(id) by {
        let at = choose|at: int| user_model_at(store.user_models, at, id);
        let moved = if at < k { at } else { at + 1 };
        assert(user_model_at(after.user_models, moved, id));
        lemma_user_model_is_at(after, moved, id);
    }
    assert(user_model_at(after.user_models, k, model.id));
    lemma_user_model_is_at(after, k, model.id);
    assert forall|id: u128| #[trigger] after.has_user_model(id) implies id == model.id
        || store.has_user_model(id) by {
        let at = choose|at: int| user_model_at(after.user_models, at, id);
        if at != k {
            assert(user_model_at(store.user_models, if at < k { at } else { at - 1 }, id));
        }
    }
    assert forall|at: int| 0 <= at < after.user_models.len() implies after.has_definition(
        (#[trigger] after.user_models[at]).model_definition_id,
    ) && after.user_models[at].quantity > 0 by {
        if at != k {
            let at0 = if at < k { at } else { at - 1 };
            assert(store.has_definition(store.user_models[at0].model_definition_id));
            assert(store.user_models[at0].quantity > 0);
        }
    }
    assert forall|at: int| 0 <= at < after.definitions.len() implies after.has_game(
        (#[trigger] after.definitions[at]).game_id,
    ) by {
        assert(store.has_game(store.definitions[at].game_id));
    }
}

/// A change of status leaves the rules in force. Where the user model is
/// there, it has the new status and update time and is otherwise as it was,
/// and every other user model is untouched.
pub proof fn lemma_with_status(store: StoreView, id: u128, status: Status, now: Seq<char>)
    requires
        store.wf(),
    ensures
        store.with_status(id, status, now).wf(),
        store.with_status(id, status, now).games == store.games,
        store.with_status(id, status, now).definitions == store.definitions,
        store.with_status(id, status, now).user_models.len() == store.user_models.len(),
        forall|other: u128|
            store.with_status(id, status, now).has_user_model(other) <==> store.has_user_model(
                other,
            ),
        store.has_user_model(id) ==> store.with_status(id, status, now).user_model(id)
            == (UserModelView { status, updated_at: now, ..store.user_model(id) }),
        forall|other: u128|
            other != id && store.has_user_model(other) ==> store.with_status(
                id,
                status,
                now,
            ).user_model(other) == store.user_model(other),
{
    let after = store.with_status(id, status, now);
    if store.has_user_model(id) {
        let k = choose|at: int| user_model_at(store.user_models, at, id);
        assert(after.user_model_stamps() =~= store.user_model_stamps());
        assert(after.game_stamps() =~= store.game_stamps());
        assert(after.definition_stamps() =~= store.definition_stamps());
        assert forall|at: int| 0 <= at < after.user_models.len() implies after.has_definition(
            (#[trigger] after.user_models[at]).model_definition_id,
        ) && after.user_models[at].quantity > 0 && after.user_models[at].id
            == store.user_models[at].id by {
            assert(store.has_definition(store.user_models[at].model_definition_id));
            assert(store.user_models[at].quantity > 0);
        }
        assert forall|at: int| 0 <= at < after.definitions.len() implies after.has_game(
            (#[trigger] after.definitions[at]).game_id,
        ) by {
            assert(store.has_game(store.definitions[at].game_id));
        }
        assert forall|other: u128| after.has_user_model(other) <==> store.has_user_model(
            other,
        ) by {
            if after.has_user_model(other) {
                let at = choose|at: int| user_model_at(after.user_models, at, other);
                assert(user_model_at(store.user_models, at, other));
            }
            if store.has_user_model(other) {
                let at = choose|at: int| user_model_at(store.user_models, at, other);
                assert(user_model_at(after.user_models, at, other));
            }
        }
        assert(after.wf());
        assert forall|other: u128| store.has_user_model(other) implies after.user_model(other)
            == (if other == id {
            UserModelView { status, updated_at: now, ..store.user_model(id) }
        } else {
            store.user_model(other)
        }) by {
            let at = choose|at: int| user_model_at(store.user_models, at, other);
            assert(user_model_at(after.user_models, at, other));
            lemma_user_model_is_at(after, at, other);
            lemma_user_model_is_at(store, at, other);
        }
    }
}

/// Whatever the statement, the rules of the tables hold after it as they
/// held before.
pub proof fn lemma_answer_keeps_rules(store: StoreView, query: QueryView, now: Seq<char>)
    requires
        store.wf(),
    ensures
        store.answer(query, now).0.wf(),
{
    match query {
        QueryView::InsertGame { id, name } => {
            if !store.has_game_named(name) && !store.has_game(id) {
                lemma_with_game(store, GameView { id, name, created_at: now });
            }
        },
        QueryView::InsertModelDefinition { id, name, game_id } => {
            if !store.has_definition(id) && store.has_game(game_id) {
                lemma_with_definition(store, DefinitionView { id, name, game_id, created_at: now });
            }
        },
        QueryView::InsertUserModel { id, model_definition_id, quantity, status } => {
            if quantity > 0 && !store.has_user_model(id) && store.has_definition(
                model_definition_id,
            ) {
                lemma_with_user_model(
                    store,
                    UserModelView {
                        id,
                        model_definition_id,
                        quantity,
                        status,
                        created_at: now,
                        updated_at: now,
                    },
                );
            }
        },
        QueryView::UpdateUserModelStatus { id, status } => {
            lemma_with_status(store, id, status, now);
        },
        _ => {},
    }
}

} // verus!
