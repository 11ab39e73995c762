//! Rows as the store hands them back, with every column as stored, and the
//! reading of such rows into records.
//!
//! A row that cannot be read (an identifier that is no UUID, a status that
//! is none of the three, a quantity beyond 32 bits) is a fault of the stored
//! data and becomes an internal error.

use vstd::prelude::*;
use vstd::string::*;
use crate::error::{AppError, ErrorKind};
use crate::ident::{read_uuid, uuid_parsed};
use crate::records::{
    views, Game, GameSummary, GameSummaryView, GameView, ModelDefinition, ModelDefinitionView,
    UserModel, UserModelListItem, UserModelListItemView, UserModelView,
};
use crate::status::Status;

verus! {

/// A row of the games table.
#[derive(Debug, PartialEq, Eq)]
pub struct GameRow {
    pub id: String,
    pub name: String,
    pub created_at: String,
}

pub struct GameRowView {
    pub id: Seq<char>,
    pub name: Seq<char>,
    pub created_at: Seq<char>,
}

impl View for GameRow {
    type V = GameRowView;

    open spec fn view(&self) -> GameRowView {
        GameRowView { id: self.id@, name: self.name@, created_at: self.created_at@ }
    }
}

impl Clone for GameRow {
    fn clone(&self) -> (copy: GameRow)
        ensures
            copy == *self,
    {
        GameRow {
            id: self.id.clone(),
            name: self.name.clone(),
            created_at: self.created_at.clone(),
        }
    }
}

/// A row of the model definitions table.
#[derive(Debug, PartialEq, Eq)]
pub struct ModelDefinitionRow {
    pub id: String,
    pub name: String,
    pub game_id: String,
}

pub struct ModelDefinitionRowView {
    pub id: Seq<char>,
    pub name: Seq<char>,
    pub game_id: Seq<char>,
}

impl View for ModelDefinitionRow {
    type V = ModelDefinitionRowView;

    open spec fn view(&self) -> ModelDefinitionRowView {
        ModelDefinitionRowView { id: self.id@, name: self.name@, game_id: self.game_id@ }
    }
}

/// A model definition joined with its game.
#[derive(Debug, PartialEq, Eq)]
pub struct ModelDefinitionListRow {
    pub id: String,
    pub name: String,
    pub game_id: String,
    pub game_name: String,
}

pub struct ModelDefinitionListRowView {
    pub id: Seq<char>,
    pub name: Seq<char>,
    pub game_id: Seq<char>,
    pub game_name: Seq<char>,
}

impl View for ModelDefinitionListRow {
    type V = ModelDefinitionListRowView;

    open spec fn view(&self) -> ModelDefinitionListRowView {
        ModelDefinitionListRowView {
            id: self.id@,
            name: self.name@,
            game_id: self.game_id@,
            game_name: self.game_name@,
        }
    }
}

/// A row of the user models table.
#[derive(Debug, PartialEq, Eq)]
pub struct UserModelRow {
    pub id: String,
    pub model_definition_id: String,
    pub quantity: i64,
    pub status: String,
    pub created_at: String,
    pub updated_at: String,
}

pub struct UserModelRowView {
    pub id: Seq<char>,
    pub model_definition_id: Seq<char>,
    pub quantity: i64,
    pub status: Seq<char>,
    pub created_at: Seq<char>,
    pub updated_at: Seq<char>,
}

impl View for UserModelRow {
    type V = UserModelRowView;

    open spec fn view(&self) -> UserModelRowView {
        UserModelRowView {
            id: self.id@,
            model_definition_id: self.model_definition_id@,
            quantity: self.quantity,
            status: self.status@,
            created_at: self.created_at@,
            updated_at: self.updated_at@,
        }
    }
}

/// A user model joined with its definition and that definition's game.
#[derive(Debug, PartialEq, Eq)]
pub struct UserModelListRow {
    pub id: String,
    pub model_name: String,
    pub game_name: String,
    pub quantity: i64,
    pub status: String,
}

pub struct UserModelListRowView {
    pub id: Seq<char>,
    pub model_name: Seq<char>,
    pub game_name: Seq<char>,
    pub quantity: i64,
    pub status: Seq<char>,
}

impl View for UserModelListRow {
    type V = UserModelListRowView;

    open spec fn view(&self) -> UserModelListRowView {
        UserModelListRowView {
            id: self.id@,
            model_name: self.model_name@,
            game_name: self.game_name@,
            quantity: self.quantity,
            status: self.status@,
        }
    }
}

/// A result with the view of its value in place of the value.
pub open spec fn seen<T: View>(result: Result<T, AppError>) -> Result<T::V, AppError> {
    match result {
        Ok(value) => Ok(value@),
        Err(error) => Err(error),
    }
}

/// A result with the views of its values in place of the values.
pub open spec fn seen_all<T: View>(result: Result<Vec<T>, AppError>) -> Result<
    Seq<T::V>,
    AppError,
> {
    match result {
        Ok(values) => Ok(views(values@)),
        Err(error) => Err(error),
    }
}

/// The status that a stored text stands for.
pub open spec fn read_status(text: Seq<char>) -> Result<Status, AppError> {
    match Status::named(text) {
        Some(status) => Ok(status),
        None => Err(AppError::of(ErrorKind::Internal, "invalid status stored in database")),
    }
}

/// The identifier that a stored text stands for.
pub open spec fn read_id(text: Seq<char>) -> Result<u128, AppError> {
    match uuid_parsed(text) {
        Some(id) => Ok(id),
        None => Err(AppError::of(ErrorKind::Internal, "invalid id stored in database")),
    }
}

/// The quantity that a stored integer stands for.
pub open spec fn read_quantity(value: i64) -> Result<i32, AppError> {
    if -0x8000_0000 <= value <= 0x7fff_ffff {
        Ok(value as i32)
    } else {
        Err(AppError::of(ErrorKind::Internal, "invalid quantity stored in database"))
    }
}

pub fn parse_status(value: &str) -> (result: Result<Status, AppError>)
    ensures
        result == read_status(value@),
{
    match Status::from_str(value) {
        Ok(status) => Ok(status),
        Err(_) => Err(AppError::internal_message("invalid status stored in database")),
    }
}

/// The identifier that was read from a stored text, or the error for a
/// text from which none could be read.
pub fn stored_id(read: Option<u128>) -> (result: Result<u128, AppError>)
    ensures
        result == match read {
            Some(id) => Ok::<u128, AppError>(id),
            None => Err::<u128, AppError>(
                AppError::of(ErrorKind::Internal, "invalid id stored in database"),
            ),
        },
{
    match read {
        Some(id) => Ok(id),
        None => Err(AppError::internal_message("invalid id stored in database")),
    }
}

pub fn parse_uuid(value: String) -> (result: Result<u128, AppError>)
    ensures
        result == read_id(value@),
{
    stored_id(read_uuid(value.as_str()))
}

pub fn parse_i32(value: i64) -> (result: Result<i32, AppError>)
    ensures
        result == read_quantity(value),
{
    if -0x8000_0000 <= value && value <= 0x7fff_ffff {
        Ok(value as i32)
    } else {
        Err(AppError::internal_message("invalid quantity stored in database"))
    }
}

/// The game that a row of the games table stands for.
pub open spec fn shaped_game(row: GameRowView) -> Result<GameView, AppError> {
    match read_id(row.id) {
        Ok(id) => Ok(GameView { id, name: row.name, created_at: row.created_at }),
        Err(error) => Err(error),
    }
}

/// The model definition that a row stands for, with the row of its game.
/// The definition's own identifier is read first.
pub open spec fn shaped_definition(row: ModelDefinitionRowView, game: GameRowView) -> Result<
    ModelDefinitionView,
    AppError,
> {
    match read_id(row.id) {
        Ok(id) => match read_id(game.id) {
            Ok(game_id) => Ok(
                ModelDefinitionView {
                    id,
                    name: row.name,
                    game: GameSummaryView { id: game_id, name: game.name },
                },
            ),
            Err(error) => Err(error),
        },
        Err(error) => Err(error),
    }
}

/// The model definition that a joined row stands for.
pub open spec fn shaped_listed_definition(row: ModelDefinitionListRowView) -> Result<
    ModelDefinitionView,
    AppError,
> {
    match read_id(row.id) {
        Ok(id) => match read_id(row.game_id) {
            Ok(game_id) => Ok(
                ModelDefinitionView {
                    id,
                    name: row.name,
                    game: GameSummaryView { id: game_id, name: row.game_name },
                },
            ),
            Err(error) => Err(error),
        },
        Err(error) => Err(error),
    }
}

/// The user model that a row stands for. The status is read first, then the
/// two identifiers, then the quantity; the first that fails gives the error.
pub open spec fn shaped_user_model(row: UserModelRowView) -> Result<UserModelView, AppError> {
    match read_status(row.status) {
        Ok(status) => match read_id(row.id) {
            Ok(id) => match read_id(row.model_definition_id) {
                Ok(model_definition_id) => match read_quantity(row.quantity) {
                    Ok(quantity) => Ok(
                        UserModelView {
                            id,
                            model_definition_id,
                            quantity,
                            status,
                            created_at: row.created_at,
                            updated_at: row.updated_at,
                        },
                    ),
                    Err(error) => Err(error),
                },
                Err(error) => Err(error),
            },
            Err(error) => Err(error),
        },
        Err(error) => Err(error),
    }
}

/// The list item that a joined row stands for. The status is read first,
/// then the identifier, then the quantity.
pub open spec fn shaped_list_item(row: UserModelListRowView) -> Result<
    UserModelListItemView,
    AppError,
> {
    match read_status(row.status) {
        Ok(status) => match read_id(row.id) {
            Ok(id) => match read_quantity(row.quantity) {
                Ok(quantity) => Ok(
                    UserModelListItemView {
                        id,
                        model_name: row.model_name,
                        game_name: row.game_name,
                        quantity,
                        status,
                    },
                ),
                Err(error) => Err(error),
            },
            Err(error) => Err(error),
        },
        Err(error) => Err(error),
    }
}

/// The records that a sequence of rows stands for, in the same order, or the
/// error of the first row that cannot be read.
pub open spec fn shaped_all<R, T>(
    rows: Seq<R>,
    shape: spec_fn(R) -> Result<T, AppError>,
) -> Result<Seq<T>, AppError>
    decreases rows.len(),
{
    if rows.len() == 0 {
        Ok(Seq::empty())
    } else {
        match shaped_all(rows.drop_last(), shape) {
            Ok(read) => match shape(rows.last()) {
                Ok(record) => Ok(read.push(record)),
                Err(error) => Err(error),
            },
            Err(error) => Err(error),
        }
    }
}

pub fn game_from_row(row: &GameRow) -> (result: Result<Game, AppError>)
    ensures
        seen(result) == shaped_game(row@),
{
    let id = parse_uuid(row.id.clone())?;
    Ok(Game { id, name: row.name.clone(), created_at: row.created_at.clone() })
}

pub fn definition_from_rows(row: &ModelDefinitionRow, game: &GameRow) -> (result: Result<
    ModelDefinition,
    AppError,
>)
    ensures
        seen(result) == shaped_definition(row@, game@),
{
    let id = parse_uuid(row.id.clone())?;
    let game_id = parse_uuid(game.id.clone())?;
    Ok(
        ModelDefinition {
            id,
            name: row.name.clone(),
            game: GameSummary { id: game_id, name: game.name.clone() },
        },
    )
}

pub fn definition_from_list_row(row: &ModelDefinitionListRow) -> (result: Result<
    ModelDefinition,
    AppError,
>)
    ensures
        seen(result) == shaped_listed_definition(row@),
{
    let id = parse_uuid(row.id.clone())?;
    let game_id = parse_uuid(row.game_id.clone())?;
    Ok(
        ModelDefinition {
            id,
            name: row.name.clone(),
            game: GameSummary { id: game_id, name: row.game_name.clone() },
        },
    )
}

pub fn user_model_from_row(row: &UserModelRow) -> (result: Result<UserModel, AppError>)
    ensures
        seen(result) == shaped_user_model(row@),
{
    let status = parse_status(row.status.as_str())?;
    let id = parse_uuid(row.id.clone())?;
    let model_definition_id = parse_uuid(row.model_definition_id.clone())?;
    let quantity = parse_i32(row.quantity)?;
    Ok(
        UserModel {
            id,
            model_definition_id,
            quantity,
            status,
            created_at: row.created_at.clone(),
            updated_at: row.updated_at.clone(),
        },
    )
}

pub fn list_item_from_row(row: &UserModelListRow) -> (result: Result<UserModelListItem, AppError>)
    ensures
        seen(result) == shaped_list_item(row@),
{
    let status = parse_status(row.status.as_str())?;
    let id = parse_uuid(row.id.clone())?;
    let quantity = parse_i32(row.quantity)?;
    Ok(
        UserModelListItem {
            id,
            model_name: row.model_name.clone(),
            game_name: row.game_name.clone(),
            quantity,
            status,
        },
    )
}

pub fn games_from_rows(rows: &Vec<GameRow>) -> (result: Result<Vec<Game>, AppError>)
    ensures
        seen_all(result) == shaped_all(views(rows@), |row: GameRowView| shaped_game(row)),
{
    let ghost shape = |row: GameRowView| shaped_game(row);
    let mut games: Vec<Game> = Vec::new();
    let mut at: usize = 0;
    proof {
        assert(views(games@) =~= Seq::<GameView>::empty());
        assert(views(rows@).take(0).len() == 0);
    }
    while at < rows.len()
        invariant
            at <= rows@.len(),
            shape == |row: GameRowView| shaped_game(row),
            shaped_all(views(rows@).take(at as int), shape) == Ok::<Seq<GameView>, AppError>(
                views(games@),
            ),
        decreases rows@.len() - at,
    {
        proof {
            assert(views(rows@).take(at + 1).drop_last() =~= views(rows@).take(at as int));
        }
        match game_from_row(&rows[at]) {
            Ok(game) => {
                proof {
                    assert(views(games@).push(game@) =~= views(games@.push(game)));
                }
                games.push(game);
            },
            Err(error) => {
                proof {
                    lemma_failure_stays(views(rows@), shape, at + 1, error);
                }
                return Err(error);
            },
        }
        at += 1;
    }
    proof {
        assert(views(rows@).take(at as int) =~= views(rows@));
    }
    Ok(games)
}

pub fn definitions_from_rows(rows: &Vec<ModelDefinitionListRow>) -> (result: Result<
    Vec<ModelDefinition>,
    AppError,
>)
    ensures
        seen_all(result) == shaped_all(
            views(rows@),
            |row: ModelDefinitionListRowView| shaped_listed_definition(row),
        ),
{
    let ghost shape = |row: ModelDefinitionListRowView| shaped_listed_definition(row);
    let mut definitions: Vec<ModelDefinition> = Vec::new();
    let mut at: usize = 0;
    proof {
        assert(views(definitions@) =~= Seq::<ModelDefinitionView>::empty());
        assert(views(rows@).take(0).len() == 0);
    }
    while at < rows.len()
        invariant
            at <= rows@.len(),
            shape == |row: ModelDefinitionListRowView| shaped_listed_definition(row),
            shaped_all(views(rows@).take(at as int), shape) == Ok::<
                Seq<ModelDefinitionView>,
                AppError,
            >(views(definitions@)),
        decreases rows@.len() - at,
    {
        proof {
            assert(views(rows@).take(at + 1).drop_last() =~= views(rows@).take(at as int));
        }
        match definition_from_list_row(&rows[at]) {
            Ok(definition) => {
                proof {
                    assert(views(definitions@).push(definition@) =~= views(
                        definitions@.push(definition),
                    ));
                }
                definitions.push(definition);
            },
            Err(error) => {
                proof {
                    lemma_failure_stays(views(rows@), shape, at + 1, error);
                }
                return Err(error);
            },
        }
        at += 1;
    }
    proof {
        assert(views(rows@).take(at as int) =~= views(rows@));
    }
    Ok(definitions)
}

pub fn list_items_from_rows(rows: &Vec<UserModelListRow>) -> (result: Result<
    Vec<UserModelListItem>,
    AppError,
>)
    ensures
        seen_all(result) == shaped_all(
            views(rows@),
            |row: UserModelListRowView| shaped_list_item(row),
        ),
{
    let ghost shape = |row: UserModelListRowView| shaped_list_item(row);
    let mut items: Vec<UserModelListItem> = Vec::new();
    let mut at: usize = 0;
    proof {
        assert(views(items@) =~= Seq::<UserModelListItemView>::empty());
        assert(views(rows@).take(0).len() == 0);
    }
    while at < rows.len()
        invariant
            at <= rows@.len(),
            shape == |row: UserModelListRowView| shaped_list_item(row),
            shaped_all(views(rows@).take(at as int), shape) == Ok::<
                Seq<UserModelListItemView>,
                AppError,
            >(views(items@)),
        decreases rows@.len() - at,
    {
        proof {
            assert(views(rows@).take(at + 1).drop_last() =~= views(rows@).take(at as int));
        }
        match list_item_from_row(&rows[at]) {
            Ok(item) => {
                proof {
                    assert(views(items@).push(item@) =~= views(items@.push(item)));
                }
                items.push(item);
            },
            Err(error) => {
                proof {
                    lemma_failure_stays(views(rows@), shape, at + 1, error);
                }
                return Err(error);
            },
        }
        at += 1;
    }
    proof {
        assert(views(rows@).take(at as int) =~= views(rows@));
    }
    Ok(items)
}

/// Once a prefix of the rows fails, the whole fails with the same error.
pub proof fn lemma_failure_stays<R, T>(
    rows: Seq<R>,
    shape: spec_fn(R) -> Result<T, AppError>,
    upto: int,
    error: AppError,
)
    requires
        0 <= upto <= rows.len(),
        shaped_all(rows.take(upto), shape) == Err::<Seq<T>, AppError>(error),
    ensures
        shaped_all(rows, shape) == Err::<Seq<T>, AppError>(error),
    decreases rows.len() - upto,
{
    if upto == rows.len() {
        assert(rows.take(upto) =~= rows);
    } else {
        assert(rows.take(upto + 1).drop_last() =~= rows.take(upto));
        lemma_failure_stays(rows, shape, upto + 1, error);
    }
}

/// Rows that can all be read give as many records, each read from the row
/// in its place.
pub proof fn lemma_shaped_all_pointwise<R, T>(
    rows: Seq<R>,
    shape: spec_fn(R) -> Result<T, AppError>,
)
    requires
        forall|at: int| 0 <= at < rows.len() ==> (#[trigger] shape(rows[at])) is Ok,
    ensures
        shaped_all(rows, shape) is Ok,
        shaped_all(rows, shape)->Ok_0.len() == rows.len(),
        forall|at: int|
            0 <= at < rows.len() ==> Ok::<T, AppError>(
                #[trigger] shaped_all(rows, shape)->Ok_0[at],
            ) == shape(rows[at]),
    decreases rows.len(),
{
    if rows.len() > 0 {
        lemma_shaped_all_pointwise(rows.drop_last(), shape);
    }
}

} // verus!
