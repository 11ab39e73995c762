//! The handlers as a dialogue with the store.
//!
//! A handler never touches the store itself. It says which statement to
//! run and what it waits for; once the answer is there it says what comes
//! next, until the response stands. Whoever holds the store runs the
//! statements: one attempt each, in the order asked for.

use vstd::prelude::*;
use vstd::string::*;
use crate::error::{game_insert_error, map_db_error, AppError, ErrorKind};
use crate::query::{Query, QueryView, Reply, ReplyView};
use crate::records::{
    views, CreateGame, CreateModelDefinition, CreateUserModel, Game, GameView, ModelDefinition,
    ModelDefinitionView, UpdateUserModel, UserModel, UserModelListItem, UserModelListItemView,
    UserModelView,
};
use crate::rows::{
    definition_from_rows, definitions_from_rows, game_from_row, games_from_rows,
    list_items_from_rows, shaped_all, shaped_definition, shaped_game, shaped_list_item,
    shaped_listed_definition, shaped_user_model, user_model_from_row, GameRow, GameRowView,
    ModelDefinitionListRowView, UserModelListRowView,
};
use crate::status::Status;

verus! {

/// A request to the service.
#[derive(Debug, PartialEq, Eq)]
pub enum Request {
    Health,
    CreateGame(CreateGame),
    ListGames,
    CreateModelDefinition(CreateModelDefinition),
    ListModelDefinitions,
    CreateUserModel(CreateUserModel),
    ListUserModels,
    /// The identifier of the user model, and the new status.
    UpdateUserModel(u128, UpdateUserModel),
}

pub enum RequestView {
    Health,
    CreateGame { name: Seq<char> },
    ListGames,
    CreateModelDefinition { name: Seq<char>, game_id: u128 },
    ListModelDefinitions,
    CreateUserModel { model_definition_id: u128, quantity: i32, status: Seq<char> },
    ListUserModels,
    UpdateUserModel { id: u128, status: Seq<char> },
}

impl View for Request {
    type V = RequestView;

    open spec fn view(&self) -> RequestView {
        match *self {
            Request::Health => RequestView::Health,
            Request::CreateGame(body) => RequestView::CreateGame { name: body.name@ },
            Request::ListGames => RequestView::ListGames,
            Request::CreateModelDefinition(body) => RequestView::CreateModelDefinition {
                name: body.name@,
                game_id: body.game_id,
            },
            Request::ListModelDefinitions => RequestView::ListModelDefinitions,
            Request::CreateUserModel(body) => RequestView::CreateUserModel {
                model_definition_id: body.model_definition_id,
                quantity: body.quantity,
                status: body.status@,
            },
            Request::ListUserModels => RequestView::ListUserModels,
            Request::UpdateUserModel(id, body) => RequestView::UpdateUserModel {
                id,
                status: body.status@,
            },
        }
    }
}

/// The answer of the service to a request.
#[derive(Debug, PartialEq, Eq)]
pub enum Response {
    Health,
    GameCreated(Game),
    Games(Vec<Game>),
    ModelDefinitionCreated(ModelDefinition),
    ModelDefinitions(Vec<ModelDefinition>),
    UserModelCreated(UserModel),
    UserModels(Vec<UserModelListItem>),
    UserModelUpdated(UserModel),
    Failed(AppError),
}

pub enum ResponseView {
    Health,
    GameCreated(GameView),
    Games(Seq<GameView>),
    ModelDefinitionCreated(ModelDefinitionView),
    ModelDefinitions(Seq<ModelDefinitionView>),
    UserModelCreated(UserModelView),
    UserModels(Seq<UserModelListItemView>),
    UserModelUpdated(UserModelView),
    Failed(AppError),
}

impl View for Response {
    type V = ResponseView;

    open spec fn view(&self) -> ResponseView {
        match *self {
            Response::Health => ResponseView::Health,
            Response::GameCreated(game) => ResponseView::GameCreated(game@),
            Response::Games(games) => ResponseView::Games(views(games@)),
            Response::ModelDefinitionCreated(definition) => ResponseView::ModelDefinitionCreated(
                definition@,
            ),
            Response::ModelDefinitions(definitions) => ResponseView::ModelDefinitions(
                views(definitions@),
            ),
            Response::UserModelCreated(model) => ResponseView::UserModelCreated(model@),
            Response::UserModels(models) => ResponseView::UserModels(views(models@)),
            Response::UserModelUpdated(model) => ResponseView::UserModelUpdated(model@),
            Response::Failed(error) => ResponseView::Failed(error),
        }
    }
}

impl ResponseView {
    /// The HTTP status of a response: 201 for what was created, 200 for
    /// what was read or changed, and the status of its kind for a failure.
    pub open spec fn code(self) -> u16 {
        match self {
            ResponseView::GameCreated(_) => 201,
            ResponseView::ModelDefinitionCreated(_) => 201,
            ResponseView::UserModelCreated(_) => 201,
            ResponseView::Failed(error) => error.kind.code(),
            _ => 200,
        }
    }
}

impl Response {
    pub fn status_code(&self) -> (code: u16)
        ensures
            code == self@.code(),
    {
        match self {
            Response::GameCreated(_) => 201,
            Response::ModelDefinitionCreated(_) => 201,
            Response::UserModelCreated(_) => 201,
            Response::Failed(error) => error.status_code(),
            _ => 200,
        }
    }
}

/// What a handler waits for while a statement runs, with all it needs to
/// go on from the answer.
#[derive(Debug, PartialEq, Eq)]
pub enum Pending {
    /// A game is being inserted.
    GameInsert { id: u128 },
    /// The inserted game is being read back.
    GameLoad,
    GameList,
    /// The game of a new model definition is being looked up.
    DefinitionGame { id: u128, name: String, game_id: u128 },
    /// A model definition is being inserted under the game found.
    DefinitionInsert { id: u128, game: GameRow },
    /// The inserted model definition is being read back.
    DefinitionLoad { game: GameRow },
    DefinitionList,
    /// The model definition of a new user model is being looked up.
    UserModelDefinition { id: u128, model_definition_id: u128, quantity: i32, status: Status },
    /// A user model is being inserted.
    UserModelInsert { id: u128 },
    /// The inserted user model is being read back.
    UserModelLoad,
    UserModelList,
    /// The status of a user model is being set.
    UserModelUpdate { id: u128 },
    /// The user model whose status was set is being read back.
    UserModelReload,
}

pub enum PendingView {
    GameInsert { id: u128 },
    GameLoad,
    GameList,
    DefinitionGame { id: u128, name: Seq<char>, game_id: u128 },
    DefinitionInsert { id: u128, game: GameRowView },
    DefinitionLoad { game: GameRowView },
    DefinitionList,
    UserModelDefinition { id: u128, model_definition_id: u128, quantity: i32, status: Status },
    UserModelInsert { id: u128 },
    UserModelLoad,
    UserModelList,
    UserModelUpdate { id: u128 },
    UserModelReload,
}

impl View for Pending {
    type V = PendingView;

    open spec fn view(&self) -> PendingView {
        match *self {
            Pending::GameInsert { id } => PendingView::GameInsert { id },
            Pending::GameLoad => PendingView::GameLoad,
            Pending::GameList => PendingView::GameList,
            Pending::DefinitionGame { id, name, game_id } => PendingView::DefinitionGame {
                id,
                name: name@,
                game_id,
            },
            Pending::DefinitionInsert { id, game } => PendingView::DefinitionInsert {
                id,
                game: game@,
            },
            Pending::DefinitionLoad { game } => PendingView::DefinitionLoad { game: game@ },
            Pending::DefinitionList => PendingView::DefinitionList,
            Pending::UserModelDefinition {
                id,
                model_definition_id,
                quantity,
                status,
            } => PendingView::UserModelDefinition { id, model_definition_id, quantity, status },
            Pending::UserModelInsert { id } => PendingView::UserModelInsert { id },
            Pending::UserModelLoad => PendingView::UserModelLoad,
            Pending::UserModelList => PendingView::UserModelList,
            Pending::UserModelUpdate { id } => PendingView::UserModelUpdate { id },
            Pending::UserModelReload => PendingView::UserModelReload,
        }
    }
}

impl PendingView {
    /// How many statements may still follow the one that is running.
    pub open spec fn statements_left(self) -> nat {
        match self {
            PendingView::GameInsert { .. } => 1,
            PendingView::DefinitionGame { .. } => 2,
            PendingView::DefinitionInsert { .. } => 1,
            PendingView::UserModelDefinition { .. } => 2,
            PendingView::UserModelInsert { .. } => 1,
            PendingView::UserModelUpdate { .. } => 1,
            _ => 0,
        }
    }
}

/// What a handler wants next.
#[derive(Debug, PartialEq, Eq)]
pub enum Action {
    /// Run this statement and come back with the answer.
    Ask(Query, Pending),
    /// The request is answered.
    Respond(Response),
}

pub enum ActionView {
    Ask(QueryView, PendingView),
    Respond(ResponseView),
}

impl View for Action {
    type V = ActionView;

    open spec fn view(&self) -> ActionView {
        match *self {
            Action::Ask(query, pending) => ActionView::Ask(query@, pending@),
            Action::Respond(response) => ActionView::Respond(response@),
        }
    }
}

impl ActionView {
    /// How many statements the handler may still ask for.
    pub open spec fn statements_left(self) -> nat {
        match self {
            ActionView::Ask(_, pending) => 1 + pending.statements_left(),
            ActionView::Respond(_) => 0,
        }
    }
}

/// The failure that answers a request.
pub open spec fn refused(kind: ErrorKind, message: &'static str) -> ActionView {
    ActionView::Respond(ResponseView::Failed(AppError::of(kind, message)))
}

/// The response that stands for what was read from the store: the record,
/// or the failure to read it.
pub open spec fn respond_with<T>(
    read: Result<T, AppError>,
    wrap: spec_fn(T) -> ResponseView,
) -> ActionView {
    match read {
        Ok(record) => ActionView::Respond(wrap(record)),
        Err(error) => ActionView::Respond(ResponseView::Failed(error)),
    }
}

/// The first step of a handler. `fresh` is the identifier that a new record
/// gets, should the request create one.
///
/// A request that creates or changes a user model is held to its rules
/// before the store is asked anything: the status is one of the three wire
/// names, and a quantity is positive.
pub open spec fn begin_spec(request: RequestView, fresh: u128) -> ActionView {
    match request {
        RequestView::Health => ActionView::Respond(ResponseView::Health),
        RequestView::CreateGame { name } => ActionView::Ask(
            QueryView::InsertGame { id: fresh, name },
            PendingView::GameInsert { id: fresh },
        ),
        RequestView::ListGames => ActionView::Ask(QueryView::SelectGames, PendingView::GameList),
        RequestView::CreateModelDefinition { name, game_id } => ActionView::Ask(
            QueryView::SelectGame { id: game_id },
            PendingView::DefinitionGame { id: fresh, name, game_id },
        ),
        RequestView::ListModelDefinitions => ActionView::Ask(
            QueryView::SelectModelDefinitions,
            PendingView::DefinitionList,
        ),
        RequestView::CreateUserModel { model_definition_id, quantity, status } => {
            match Status::named(status) {
                None => refused(
                    ErrorKind::Validation,
                    "status must be one of unassembled, assembled, painted",
                ),
                Some(status) => if quantity <= 0 {
                    refused(ErrorKind::Validation, "quantity must be greater than 0")
                } else {
                    ActionView::Ask(
                        QueryView::SelectModelDefinition { id: model_definition_id },
                        PendingView::UserModelDefinition {
                            id: fresh,
                            model_definition_id,
                            quantity,
                            status,
                        },
                    )
                },
            }
        },
        RequestView::ListUserModels => ActionView::Ask(
            QueryView::SelectUserModels,
            PendingView::UserModelList,
        ),
        RequestView::UpdateUserModel { id, status } => match Status::named(status) {
            None => refused(
                ErrorKind::Validation,
                "status must be one of unassembled, assembled, painted",
            ),
            Some(status) => ActionView::Ask(
                QueryView::UpdateUserModelStatus { id, status },
                PendingView::UserModelUpdate { id },
            ),
        },
    }
}

/// The next step of a handler, once the store has answered.
///
/// A failed statement ends the request with an internal error that names
/// the step, and so does an answer of a kind that the statement cannot
/// have. Two cases differ: a game that the store refuses because its name
/// is taken is a conflict, and a parent or a record that is looked up and
/// not there is not found. A record that was just inserted and cannot be
/// read back is an internal error.
pub open spec fn resume_spec(pending: PendingView, reply: ReplyView) -> ActionView {
    match pending {
        PendingView::GameInsert { id } => match reply {
            ReplyView::Done => ActionView::Ask(
                QueryView::SelectGame { id },
                PendingView::GameLoad,
            ),
            ReplyView::Failed(failure) => ActionView::Respond(
                ResponseView::Failed(game_insert_error(failure)),
            ),
            _ => refused(ErrorKind::Internal, "failed to create game"),
        },
        PendingView::GameLoad => match reply {
            ReplyView::Game(Some(row)) => respond_with(
                shaped_game(row),
                |game: GameView| ResponseView::GameCreated(game),
            ),
            _ => refused(ErrorKind::Internal, "failed to load game"),
        },
        PendingView::GameList => match reply {
            ReplyView::Games(rows) => respond_with(
                shaped_all(rows, |row: GameRowView| shaped_game(row)),
                |games: Seq<GameView>| ResponseView::Games(games),
            ),
            _ => refused(ErrorKind::Internal, "failed to fetch games"),
        },
        PendingView::DefinitionGame { id, name, game_id } => match reply {
            ReplyView::Game(Some(game)) => ActionView::Ask(
                QueryView::InsertModelDefinition { id, name, game_id },
                PendingView::DefinitionInsert { id, game },
            ),
            ReplyView::Game(None) => refused(ErrorKind::NotFound, "game not found"),
            _ => refused(ErrorKind::Internal, "failed to validate game"),
        },
        PendingView::DefinitionInsert { id, game } => match reply {
            ReplyView::Done => ActionView::Ask(
                QueryView::SelectModelDefinition { id },
                PendingView::DefinitionLoad { game },
            ),
            _ => refused(ErrorKind::Internal, "failed to create model definition"),
        },
        PendingView::DefinitionLoad { game } => match reply {
            ReplyView::ModelDefinition(Some(row)) => respond_with(
                shaped_definition(row, game),
                |definition: ModelDefinitionView| ResponseView::ModelDefinitionCreated(definition),
            ),
            _ => refused(ErrorKind::Internal, "failed to load model definition"),
        },
        PendingView::DefinitionList => match reply {
            ReplyView::ModelDefinitions(rows) => respond_with(
                shaped_all(rows, |row: ModelDefinitionListRowView| shaped_listed_definition(row)),
                |definitions: Seq<ModelDefinitionView>| ResponseView::ModelDefinitions(definitions),
            ),
            _ => refused(ErrorKind::Internal, "failed to fetch model definitions"),
        },
        PendingView::UserModelDefinition { id, model_definition_id, quantity, status } => {
            match reply {
                ReplyView::ModelDefinition(Some(_)) => ActionView::Ask(
                    QueryView::InsertUserModel { id, model_definition_id, quantity, status },
                    PendingView::UserModelInsert { id },
                ),
                ReplyView::ModelDefinition(None) => refused(
                    ErrorKind::NotFound,
                    "model definition not found",
                ),
                _ => refused(ErrorKind::Internal, "failed to validate model definition"),
            }
        },
        PendingView::UserModelInsert { id } => match reply {
            ReplyView::Done => ActionView::Ask(
                QueryView::SelectUserModel { id },
                PendingView::UserModelLoad,
            ),
            _ => refused(ErrorKind::Internal, "failed to create user model"),
        },
        PendingView::UserModelLoad => match reply {
            ReplyView::UserModel(Some(row)) => respond_with(
                shaped_user_model(row),
                |model: UserModelView| ResponseView::UserModelCreated(model),
            ),
            _ => refused(ErrorKind::Internal, "failed to load user model"),
        },
        PendingView::UserModelList => match reply {
            ReplyView::UserModels(rows) => respond_with(
                shaped_all(rows, |row: UserModelListRowView| shaped_list_item(row)),
                |models: Seq<UserModelListItemView>| ResponseView::UserModels(models),
            ),
            _ => refused(ErrorKind::Internal, "failed to fetch user models"),
        },
        PendingView::UserModelUpdate { id } => match reply {
            ReplyView::Done => ActionView::Ask(
                QueryView::SelectUserModel { id },
                PendingView::UserModelReload,
            ),
            _ => refused(ErrorKind::Internal, "failed to update user model"),
        },
        PendingView::UserModelReload => match reply {
            ReplyView::UserModel(Some(row)) => respond_with(
                shaped_user_model(row),
                |model: UserModelView| ResponseView::UserModelUpdated(model),
            ),
            ReplyView::UserModel(None) => refused(ErrorKind::NotFound, "user model not found"),
            _ => refused(ErrorKind::Internal, "failed to load user model"),
        },
    }
}

fn refuse(error: AppError) -> (action: Action)
    ensures
        action@ == ActionView::Respond(ResponseView::Failed(error)),
{
    Action::Respond(Response::Failed(error))
}

/// The internal error of a step whose statement did not go through: with
/// the store's failure where there is one.
fn broke(message: &'static str, reply: Reply) -> (action: Action)
    ensures
        action@ == refused(ErrorKind::Internal, message),
{
    match reply {
        Reply::Failed(failure) => refuse(AppError::internal(message, failure)),
        _ => refuse(AppError::internal_message(message)),
    }
}

/// Takes the first step of a handler.
pub fn begin(request: Request, fresh: u128) -> (action: Action)
    ensures
        action@ == begin_spec(request@, fresh),
{
    match request {
        Request::Health => Action::Respond(Response::Health),
        Request::CreateGame(body) => Action::Ask(
            Query::InsertGame { id: fresh, name: body.name },
            Pending::GameInsert { id: fresh },
        ),
        Request::ListGames => Action::Ask(Query::SelectGames, Pending::GameList),
        Request::CreateModelDefinition(body) => Action::Ask(
            Query::SelectGame { id: body.game_id },
            Pending::DefinitionGame { id: fresh, name: body.name, game_id: body.game_id },
        ),
        Request::ListModelDefinitions => Action::Ask(
            Query::SelectModelDefinitions,
            Pending::DefinitionList,
        ),
        Request::CreateUserModel(body) => {
            match Status::from_str(body.status.as_str()) {
                Err(_) => refuse(
                    AppError::validation("status must be one of unassembled, assembled, painted"),
                ),
                Ok(status) => if body.quantity <= 0 {
                    refuse(AppError::validation("quantity must be greater than 0"))
                } else {
                    Action::Ask(
                        Query::SelectModelDefinition { id: body.model_definition_id },
                        Pending::UserModelDefinition {
                            id: fresh,
                            model_definition_id: body.model_definition_id,
                            quantity: body.quantity,
                            status,
                        },
                    )
                },
            }
        },
        Request::ListUserModels => Action::Ask(Query::SelectUserModels, Pending::UserModelList),
        Request::UpdateUserModel(id, body) => match Status::from_str(body.status.as_str()) {
            Err(_) => refuse(
                AppError::validation("status must be one of unassembled, assembled, painted"),
            ),
            Ok(status) => Action::Ask(
                Query::UpdateUserModelStatus { id, status },
                Pending::UserModelUpdate { id },
            ),
        },
    }
}

/// Takes the next step of a handler from the store's answer.
pub fn resume(pending: Pending, reply: Reply) -> (action: Action)
    ensures
        action@ == resume_spec(pending@, reply@),
        action@.statements_left() <= pending@.statements_left(),
{
    match pending {
        Pending::GameInsert { id } => match reply {
            Reply::Done => Action::Ask(Query::SelectGame { id }, Pending::GameLoad),
            Reply::Failed(failure) => refuse(map_db_error(failure)),
            other => broke("failed to create game", other),
        },
        Pending::GameLoad => match reply {
            Reply::Game(Some(row)) => match game_from_row(&row) {
                Ok(game) => Action::Respond(Response::GameCreated(game)),
                Err(error) => refuse(error),
            },
            other => broke("failed to load game", other),
        },
        Pending::GameList => match reply {
            Reply::Games(rows) => match games_from_rows(&rows) {
                Ok(games) => Action::Respond(Response::Games(games)),
                Err(error) => refuse(error),
            },
            other => broke("failed to fetch games", other),
        },
        Pending::DefinitionGame { id, name, game_id } => match reply {
            Reply::Game(Some(game)) => Action::Ask(
                Query::InsertModelDefinition { id, name, game_id },
                Pending::DefinitionInsert { id, game },
            ),
            Reply::Game(None) => refuse(AppError::not_found("game not found")),
            other => broke("failed to validate game", other),
        },
        Pending::DefinitionInsert { id, game } => match reply {
            Reply::Done => Action::Ask(
                Query::SelectModelDefinition { id },
                Pending::DefinitionLoad { game },
            ),
            other => broke("failed to create model definition", other),
        },
        Pending::DefinitionLoad { game } => match reply {
            Reply::ModelDefinition(Some(row)) => match definition_from_rows(&row, &game) {
                Ok(definition) => Action::Respond(Response::ModelDefinitionCreated(definition)),
                Err(error) => refuse(error),
            },
            other => broke("failed to load model definition", other),
        },
        Pending::DefinitionList => match reply {
            Reply::ModelDefinitions(rows) => match definitions_from_rows(&rows) {
                Ok(definitions) => Action::Respond(Response::ModelDefinitions(definitions)),
                Err(error) => refuse(error),
            },
            other => broke("failed to fetch model definitions", other),
        },
        Pending::UserModelDefinition { id, model_definition_id, quantity, status } => {
            match reply {
                Reply::ModelDefinition(Some(_)) => Action::Ask(
                    Query::InsertUserModel { id, model_definition_id, quantity, status },
                    Pending::UserModelInsert { id },
                ),
                Reply::ModelDefinition(None) => refuse(
                    AppError::not_found("model definition not found"),
                ),
                other => broke("failed to validate model definition", other),
            }
        },
        Pending::UserModelInsert { id } => match reply {
            Reply::Done => Action::Ask(Query::SelectUserModel { id }, Pending::UserModelLoad),
            other => broke("failed to create user model", other),
        },
        Pending::UserModelLoad => match reply {
            Reply::UserModel(Some(row)) => match user_model_from_row(&row) {
                Ok(model) => Action::Respond(Response::UserModelCreated(model)),
                Err(error) => refuse(error),
            },
            other => broke("failed to load user model", other),
        },
        Pending::UserModelList => match reply {
            Reply::UserModels(rows) => match list_items_from_rows(&rows) {
                Ok(models) => Action::Respond(Response::UserModels(models)),
                Err(error) => refuse(error),
            },
            other => broke("failed to fetch user models", other),
        },
        Pending::UserModelUpdate { id } => match reply {
            Reply::Done => Action::Ask(Query::SelectUserModel { id }, Pending::UserModelReload),
            other => broke("failed to update user model", other),
        },
        Pending::UserModelReload => match reply {
            Reply::UserModel(Some(row)) => match user_model_from_row(&row) {
                Ok(model) => Action::Respond(Response::UserModelUpdated(model)),
                Err(error) => refuse(error),
            },
            Reply::UserModel(None) => refuse(AppError::not_found("user model not found")),
            other => broke("failed to load user model", other),
        },
    }
}

} // verus!
