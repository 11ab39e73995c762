//! The store held in memory: the three tables, and the statements run
//! against them.

use vstd::prelude::*;
use vstd::string::*;
use crate::error::DbFailure;
use crate::ident::{legible, write_uuid};
use crate::model::{
    definition_at, definition_row, game_at, game_named_at, game_row, lemma_answer_keeps_rules,
    lemma_definition_is_at, lemma_game_is_at, lemma_user_model_is_at, listed_definition_row,
    listed_user_model_row, slot, user_model_at, user_model_row, DefinitionView, StoreView,
};
use crate::query::{Query, QueryView, Reply};
use crate::records::{views, Game, UserModel};
use crate::rows::{
    GameRow, ModelDefinitionListRow, ModelDefinitionRow, UserModelListRow, UserModelRow,
};
use crate::status::Status;
use crate::text::not_after;

verus! {

/// A model definition as a row of its table.
#[derive(Debug, PartialEq, Eq)]
pub struct Definition {
    pub id: u128,
    pub name: String,
    pub game_id: u128,
    pub created_at: String,
}

impl View for Definition {
    type V = DefinitionView;

    open spec fn view(&self) -> DefinitionView {
        DefinitionView {
            id: self.id,
            name: self.name@,
            game_id: self.game_id,
            created_at: self.created_at@,
        }
    }
}

/// A row that carries its creation time.
pub trait Stamped: View {
    spec fn stamp(&self) -> Seq<char>;

    fn created(&self) -> (text: &str)
        ensures
            text@ == self.stamp(),
    ;
}

impl Stamped for Game {
    open spec fn stamp(&self) -> Seq<char> {
        self.created_at@
    }

    fn created(&self) -> (text: &str) {
        self.created_at.as_str()
    }
}

impl Stamped for Definition {
    open spec fn stamp(&self) -> Seq<char> {
        self.created_at@
    }

    fn created(&self) -> (text: &str) {
        self.created_at.as_str()
    }
}

impl Stamped for UserModel {
    open spec fn stamp(&self) -> Seq<char> {
        self.created_at@
    }

    fn created(&self) -> (text: &str) {
        self.created_at.as_str()
    }
}

/// The creation times of the rows of a table, in table order.
pub open spec fn stamps<T: Stamped>(rows: Seq<T>) -> Seq<Seq<char>> {
    Seq::new(rows.len(), |at: int| rows[at].stamp())
}

/// Finds where a row created at `now` goes: behind the last row that was
/// created no later.
pub fn slot_among<T: Stamped>(rows: &Vec<T>, now: &str) -> (at: usize)
    ensures
        at == slot(stamps(rows@), now@),
        at <= rows@.len(),
{
    let mut at: usize = rows.len();
    proof {
        assert(stamps(rows@).take(at as int) =~= stamps(rows@));
    }
    while at > 0
        invariant
            at <= rows@.len(),
            slot(stamps(rows@), now@) == slot(stamps(rows@).take(at as int), now@),
        decreases at,
    {
        if not_after(rows[at - 1].created(), now) {
            return at;
        }
        proof {
            assert(stamps(rows@).take(at as int).drop_last() =~= stamps(rows@).take(at - 1));
        }
        at -= 1;
    }
    at
}

/// The three tables, held in memory.
#[derive(Debug)]
pub struct Store {
    games: Vec<Game>,
    definitions: Vec<Definition>,
    user_models: Vec<UserModel>,
}

impl View for Store {
    type V = StoreView;

    closed spec fn view(&self) -> StoreView {
        StoreView {
            games: views(self.games@),
            definitions: views(self.definitions@),
            user_models: views(self.user_models@),
        }
    }
}

fn failed(wording: &str) -> (reply: Reply)
    ensures
        reply@ == crate::query::ReplyView::Failed(Some(wording@)),
{
    Reply::Failed(DbFailure { message: Some(String::from_str(wording)) })
}

fn row_of_game(game: &Game) -> (row: GameRow)
    ensures
        row@ == game_row(game@),
        legible(game.id),
{
    GameRow {
        id: write_uuid(game.id),
        name: game.name.clone(),
        created_at: game.created_at.clone(),
    }
}

fn row_of_definition(definition: &Definition) -> (row: ModelDefinitionRow)
    ensures
        row@ == definition_row(definition@),
        legible(definition.id),
        legible(definition.game_id),
{
    ModelDefinitionRow {
        id: write_uuid(definition.id),
        name: definition.name.clone(),
        game_id: write_uuid(definition.game_id),
    }
}

fn row_of_listed_definition(definition: &Definition, game: &Game) -> (row:
    ModelDefinitionListRow)
    ensures
        row@ == listed_definition_row(definition@, game@),
        legible(definition.id),
        legible(game.id),
{
    ModelDefinitionListRow {
        id: write_uuid(definition.id),
        name: definition.name.clone(),
        game_id: write_uuid(game.id),
        game_name: game.name.clone(),
    }
}

fn row_of_user_model(model: &UserModel) -> (row: UserModelRow)
    ensures
        row@ == user_model_row(model@),
        legible(model.id),
        legible(model.model_definition_id),
{
    UserModelRow {
        id: write_uuid(model.id),
        model_definition_id: write_uuid(model.model_definition_id),
        quantity: model.quantity as i64,
        status: String::from_str(model.status.as_str()),
        created_at: model.created_at.clone(),
        updated_at: model.updated_at.clone(),
    }
}

fn row_of_listed_user_model(model: &UserModel, definition: &Definition, game: &Game) -> (row:
    UserModelListRow)
    ensures
        row@ == listed_user_model_row(model@, definition@, game@),
        legible(model.id),
{
    UserModelListRow {
        id: write_uuid(model.id),
        model_name: definition.name.clone(),
        game_name: game.name.clone(),
        quantity: model.quantity as i64,
        status: String::from_str(model.status.as_str()),
    }
}

impl Store {
    /// The rules of the tables hold.
    pub open spec fn wf(&self) -> bool {
        self@.wf()
    }

    /// A store with three empty tables.
    pub fn new() -> (store: Store)
        ensures
            store@ == StoreView::empty(),
            store.wf(),
    {
        let store = Store { games: Vec::new(), definitions: Vec::new(), user_models: Vec::new() };
        assert(store@.games =~= Seq::empty());
        assert(store@.definitions =~= Seq::empty());
        assert(store@.user_models =~= Seq::empty());
        store
    }

    fn find_game(&self, id: u128) -> (found: Option<usize>)
        ensures
            match found {
                Some(at) => game_at(self@.games, at as int, id),
                None => !self@.has_game(id),
            },
    {
        let mut at: usize = 0;
        while at < self.games.len()
            invariant
                at <= self.games@.len(),
                forall|before: int| 0 <= before < at ==> !game_at(self@.games, before, id),
            decreases self.games@.len() - at,
        {
            if self.games[at].id == id {
                return Some(at);
            }
            at += 1;
        }
        None
    }

    fn find_game_named(&self, name: &str) -> (found: Option<usize>)
        ensures
            match found {
                Some(at) => game_named_at(self@.games, at as int, name@),
                None => !self@.has_game_named(name@),
            },
    {
        let mut at: usize = 0;
        while at < self.games.len()
            invariant
                at <= self.games@.len(),
                forall|before: int|
                    0 <= before < at ==> !game_named_at(self@.games, before, name@),
            decreases self.games@.len() - at,
        {
            if crate::text::same_text(self.games[at].name.as_str(), name) {
                return Some(at);
            }
            at += 1;
        }
        None
    }

    fn find_definition(&self, id: u128) -> (found: Option<usize>)
        ensures
            match found {
                Some(at) => definition_at(self@.definitions, at as int, id),
                None => !self@.has_definition(id),
            },
    {
        let mut at: usize = 0;
        while at < self.definitions.len()
            invariant
                at <= self.definitions@.len(),
                forall|before: int|
                    0 <= before < at ==> !definition_at(self@.definitions, before, id),
            decreases self.definitions@.len() - at,
        {
            if self.definitions[at].id == id {
                return Some(at);
            }
            at += 1;
        }
        None
    }

    fn find_user_model(&self, id: u128) -> (found: Option<usize>)
        ensures
            match found {
                Some(at) => user_model_at(self@.user_models, at as int, id),
                None => !self@.has_user_model(id),
            },
    {
        let mut at: usize = 0;
        while at < self.user_models.len()
            invariant
                at <= self.user_models@.len(),
                forall|before: int|
                    0 <= before < at ==> !user_model_at(self@.user_models, before, id),
            decreases self.user_models@.len() - at,
        {
            if self.user_models[at].id == id {
                return Some(at);
            }
            at += 1;
        }
        None
    }

    fn insert_game(&mut self, id: u128, name: String, now: &str) -> (reply: Reply)
        requires
            old(self).wf(),
        ensures
            (final(self)@, reply@) == old(self)@.answer(
                QueryView::InsertGame { id, name: name@ },
                now@,
            ),
    {
        if let Some(_) = self.find_game_named(name.as_str()) {
            return failed("UNIQUE constraint failed: games.name");
        }
        if let Some(_) = self.find_game(id) {
            return failed("UNIQUE constraint failed: games.id");
        }
        let at = slot_among(&self.games, now);
        let game = Game { id, name, created_at: String::from_str(now) };
        proof {
            assert(stamps(self.games@) =~= self@.game_stamps());
            assert(views(self.games@.insert(at as int, game)) =~= views(self.games@).insert(
                at as int,
                game@,
            ));
        }
        self.games.insert(at, game);
        Reply::Done
    }

    fn insert_definition(&mut self, id: u128, name: String, game_id: u128, now: &str) -> (reply:
        Reply)
        requires
            old(self).wf(),
        ensures
            (final(self)@, reply@) == old(self)@.answer(
                QueryView::InsertModelDefinition { id, name: name@, game_id },
                now@,
            ),
    {
        if let Some(_) = self.find_definition(id) {
            return failed("UNIQUE constraint failed: model_definitions.id");
        }
        if let None = self.find_game(game_id) {
            return failed("FOREIGN KEY constraint failed");
        }
        let at = slot_among(&self.definitions, now);
        let definition = Definition { id, name, game_id, created_at: String::from_str(now) };
        proof {
            assert(stamps(self.definitions@) =~= self@.definition_stamps());
            assert(views(self.definitions@.insert(at as int, definition)) =~= views(
                self.definitions@,
            ).insert(at as int, definition@));
        }
        self.definitions.insert(at, definition);
        Reply::Done
    }

    fn insert_user_model(
        &mut self,
        id: u128,
        model_definition_id: u128,
        quantity: i32,
        status: Status,
        now: &str,
    ) -> (reply: Reply)
        requires
            old(self).wf(),
        ensures
            (final(self)@, reply@) == old(self)@.answer(
                QueryView::InsertUserModel { id, model_definition_id, quantity, status },
                now@,
            ),
    {
        if quantity <= 0 {
            return failed("CHECK constraint failed: quantity > 0");
        }
        if let Some(_) = self.find_user_model(id) {
            return failed("UNIQUE constraint failed: user_models.id");
        }
        if let None = self.find_definition(model_definition_id) {
            return failed("FOREIGN KEY constraint failed");
        }
        let at = slot_among(&self.user_models, now);
        let model = UserModel {
            id,
            model_definition_id,
            quantity,
            status,
            created_at: String::from_str(now),
            updated_at: String::from_str(now),
        };
        proof {
            assert(stamps(self.user_models@) =~= self@.user_model_stamps());
            assert(views(self.user_models@.insert(at as int, model)) =~= views(
                self.user_models@,
            ).insert(at as int, model@));
        }
        self.user_models.insert(at, model);
        Reply::Done
    }

    fn update_status(&mut self, id: u128, status: Status, now: &str) -> (reply: Reply)
        requires
            old(self).wf(),
        ensures
            (final(self)@, reply@) == old(self)@.answer(
                QueryView::UpdateUserModelStatus { id, status },
                now@,
            ),
    {
        if let Some(at) = self.find_user_model(id) {
            let before = &self.user_models[at];
            let after = UserModel {
                id: before.id,
                model_definition_id: before.model_definition_id,
                quantity: before.quantity,
                status,
                created_at: before.created_at.clone(),
                updated_at: String::from_str(now),
            };
            proof {
                lemma_user_model_is_at(self@, at as int, id);
                assert(views(self.user_models@.update(at as int, after)) =~= views(
                    self.user_models@,
                ).update(at as int, after@));
            }
            self.user_models.set(at, after);
        }
        Reply::Done
    }

    fn select_game(&self, id: u128) -> (reply: Reply)
        requires
            self.wf(),
        ensures
            (self@, reply@) == self@.answer(QueryView::SelectGame { id }, ""@),
            self@.reads_back(QueryView::SelectGame { id }),
    {
        match self.find_game(id) {
            Some(at) => {
                proof {
                    lemma_game_is_at(self@, at as int, id);
                }
                Reply::Game(Some(row_of_game(&self.games[at])))
            },
            None => Reply::Game(None),
        }
    }

    fn select_games(&self) -> (reply: Reply)
        requires
            self.wf(),
        ensures
            (self@, reply@) == self@.answer(QueryView::SelectGames, ""@),
            self@.reads_back(QueryView::SelectGames),
    {
        let mut rows: Vec<GameRow> = Vec::new();
        let mut at: usize = 0;
        while at < self.games.len()
            invariant
                at <= self.games@.len(),
                views(rows@) =~= self@.game_rows().take(at as int),
                forall|before: int| 0 <= before < at ==> legible(self@.games[before].id),
            decreases self.games@.len() - at,
        {
            let row = row_of_game(&self.games[at]);
            proof {
                assert(self@.games[at as int] == self.games@[at as int]@);
                assert(self@.game_rows().take(at + 1) =~= self@.game_rows().take(
                    at as int,
                ).push(row@));
                assert(views(rows@.push(row)) =~= views(rows@).push(row@));
            }
            rows.push(row);
            at += 1;
        }
        assert(views(rows@) =~= self@.game_rows());
        Reply::Games(rows)
    }

    fn select_definition(&self, id: u128) -> (reply: Reply)
        requires
            self.wf(),
        ensures
            (self@, reply@) == self@.answer(QueryView::SelectModelDefinition { id }, ""@),
            self@.reads_back(QueryView::SelectModelDefinition { id }),
    {
        match self.find_definition(id) {
            Some(at) => {
                proof {
                    lemma_definition_is_at(self@, at as int, id);
                }
                Reply::ModelDefinition(Some(row_of_definition(&self.definitions[at])))
            },
            None => Reply::ModelDefinition(None),
        }
    }

    fn select_definitions(&self) -> (reply: Reply)
        requires
            self.wf(),
        ensures
            (self@, reply@) == self@.answer(QueryView::SelectModelDefinitions, ""@),
            self@.reads_back(QueryView::SelectModelDefinitions),
    {
        let mut rows: Vec<ModelDefinitionListRow> = Vec::new();
        let mut at: usize = 0;
        while at < self.definitions.len()
            invariant
                self.wf(),
                at <= self.definitions@.len(),
                views(rows@) =~= self@.listed_definition_rows().take(at as int),
                forall|before: int|
                    0 <= before < at ==> legible((#[trigger] self@.definitions[before]).id)
                        && legible(self@.definitions[before].game_id),
            decreases self.definitions@.len() - at,
        {
            let definition = &self.definitions[at];
            assert(self@.has_game(self@.definitions[at as int].game_id));
            if let Some(game_at) = self.find_game(definition.game_id) {
                proof {
                    lemma_game_is_at(self@, game_at as int, definition.game_id);
                }
                let row = row_of_listed_definition(definition, &self.games[game_at]);
                proof {
                    assert(self@.definitions[at as int] == definition@);
                    assert(self@.games[game_at as int] == self.games@[game_at as int]@);
                    assert(self@.listed_definition_rows().take(at + 1)
                        =~= self@.listed_definition_rows().take(at as int).push(row@));
                    assert(views(rows@.push(row)) =~= views(rows@).push(row@));
                }
                rows.push(row);
            }
            at += 1;
        }
        assert(views(rows@) =~= self@.listed_definition_rows());
        Reply::ModelDefinitions(rows)
    }

    fn select_user_model(&self, id: u128) -> (reply: Reply)
        requires
            self.wf(),
        ensures
            (self@, reply@) == self@.answer(QueryView::SelectUserModel { id }, ""@),
            self@.reads_back(QueryView::SelectUserModel { id }),
    {
        match self.find_user_model(id) {
            Some(at) => {
                proof {
                    lemma_user_model_is_at(self@, at as int, id);
                }
                Reply::UserModel(Some(row_of_user_model(&self.user_models[at])))
            },
            None => Reply::UserModel(None),
        }
    }

    fn select_user_models(&self) -> (reply: Reply)
        requires
            self.wf(),
        ensures
            (self@, reply@) == self@.answer(QueryView::SelectUserModels, ""@),
            self@.reads_back(QueryView::SelectUserModels),
    {
        let mut rows: Vec<UserModelListRow> = Vec::new();
        let mut at: usize = 0;
        while at < self.user_models.len()
            invariant
                self.wf(),
                at <= self.user_models@.len(),
                views(rows@) =~= self@.listed_user_model_rows().take(at as int),
                forall|before: int|
                    0 <= before < at ==> legible((#[trigger] self@.user_models[before]).id),
            decreases self.user_models@.len() - at,
        {
            let model = &self.user_models[at];
            assert(self@.has_definition(self@.user_models[at as int].model_definition_id));
            if let Some(definition_at) = self.find_definition(model.model_definition_id) {
                let definition = &self.definitions[definition_at];
                proof {
                    lemma_definition_is_at(
                        self@,
                        definition_at as int,
                        model.model_definition_id,
                    );
                    assert(self@.has_game(self@.definitions[definition_at as int].game_id));
                }
                if let Some(game_at) = self.find_game(definition.game_id) {
                    proof {
                        lemma_game_is_at(self@, game_at as int, definition.game_id);
                    }
                    let row = row_of_listed_user_model(model, definition, &self.games[game_at]);
                    proof {
                        assert(self@.user_models[at as int] == model@);
                        assert(self@.definitions[definition_at as int] == definition@);
                        assert(self@.games[game_at as int] == self.games@[game_at as int]@);
                        assert(self@.listed_user_model_rows().take(at + 1)
                            =~= self@.listed_user_model_rows().take(at as int).push(row@));
                        assert(views(rows@.push(row)) =~= views(rows@).push(row@));
                    }
                    rows.push(row);
                }
            }
            at += 1;
        }
        assert(views(rows@) =~= self@.listed_user_model_rows());
        Reply::UserModels(rows)
    }

    /// Runs one statement at the time `now` and gives the store's answer.
    ///
    /// The tables change, and the answer reads, as the model of the store
    /// says. The rules of the tables hold afterwards, and every identifier
    /// in the answer reads back from the form in which it was written.
    pub fn answer(&mut self, query: Query, now: &str) -> (reply: Reply)
        requires
            old(self).wf(),
        ensures
            final(self).wf(),
            (final(self)@, reply@) == old(self)@.answer(query@, now@),
            old(self)@.reads_back(query@),
    {
        proof {
            lemma_answer_keeps_rules(self@, query@, now@);
        }
        match query {
            Query::InsertGame { id, name } => self.insert_game(id, name, now),
            Query::SelectGame { id } => self.select_game(id),
            Query::SelectGames => self.select_games(),
            Query::InsertModelDefinition { id, name, game_id } => self.insert_definition(
                id,
                name,
                game_id,
                now,
            ),
            Query::SelectModelDefinition { id } => self.select_definition(id),
            Query::SelectModelDefinitions => self.select_definitions(),
            Query::InsertUserModel {
                id,
                model_definition_id,
                quantity,
                status,
            } => self.insert_user_model(id, model_definition_id, quantity, status, now),
            Query::SelectUserModel { id } => self.select_user_model(id),
            Query::SelectUserModels => self.select_user_models(),
            Query::UpdateUserModelStatus { id, status } => self.update_status(id, status, now),
        }
    }
}

} // verus!
