//! What a handler asks of the store, and what the store answers.

use vstd::prelude::*;
use vstd::string::*;
use crate::error::DbFailure;
use crate::records::views;
use crate::rows::{
    GameRow, GameRowView, ModelDefinitionListRow, ModelDefinitionListRowView, ModelDefinitionRow,
    ModelDefinitionRowView, UserModelListRow, UserModelListRowView, UserModelRow,
    UserModelRowView,
};
use crate::status::Status;

verus! {

/// One statement against the store. The store stamps what it inserts or
/// updates with its own clock.
#[derive(Debug, PartialEq, Eq)]
pub enum Query {
    /// Insert a game.
    InsertGame { id: u128, name: String },
    /// The game with this identifier.
    SelectGame { id: u128 },
    /// All games, by creation time.
    SelectGames,
    /// Insert a model definition under a game.
    InsertModelDefinition { id: u128, name: String, game_id: u128 },
    /// The model definition with this identifier.
    SelectModelDefinition { id: u128 },
    /// All model definitions, each joined with its game, by creation time.
    SelectModelDefinitions,
    /// Insert a user model under a model definition.
    InsertUserModel { id: u128, model_definition_id: u128, quantity: i32, status: Status },
    /// The user model with this identifier.
    SelectUserModel { id: u128 },
    /// All user models, each joined with its definition and that
    /// definition's game, by creation time.
    SelectUserModels,
    /// Set the status of a user model and refresh its update time.
    UpdateUserModelStatus { id: u128, status: Status },
}

pub enum QueryView {
    InsertGame { id: u128, name: Seq<char> },
    SelectGame { id: u128 },
    SelectGames,
    InsertModelDefinition { id: u128, name: Seq<char>, game_id: u128 },
    SelectModelDefinition { id: u128 },
    SelectModelDefinitions,
    InsertUserModel { id: u128, model_definition_id: u128, quantity: i32, status: Status },
    SelectUserModel { id: u128 },
    SelectUserModels,
    UpdateUserModelStatus { id: u128, status: Status },
}

impl View for Query {
    type V = QueryView;

    open spec fn view(&self) -> QueryView {
        match *self {
            Query::InsertGame { id, name } => QueryView::InsertGame { id, name: name@ },
            Query::SelectGame { id } => QueryView::SelectGame { id },
            Query::SelectGames => QueryView::SelectGames,
            Query::InsertModelDefinition { id, name, game_id } => QueryView::InsertModelDefinition {
                id,
                name: name@,
                game_id,
            },
            Query::SelectModelDefinition { id } => QueryView::SelectModelDefinition { id },
            Query::SelectModelDefinitions => QueryView::SelectModelDefinitions,
            Query::InsertUserModel {
                id,
                model_definition_id,
                quantity,
                status,
            } => QueryView::InsertUserModel { id, model_definition_id, quantity, status },
            Query::SelectUserModel { id } => QueryView::SelectUserModel { id },
            Query::SelectUserModels => QueryView::SelectUserModels,
            Query::UpdateUserModelStatus { id, status } => QueryView::UpdateUserModelStatus {
                id,
                status,
            },
        }
    }
}

/// What the store answered to one statement.
#[derive(Debug, PartialEq, Eq)]
pub enum Reply {
    /// The statement failed.
    Failed(DbFailure),
    /// An insert or update went through.
    Done,
    /// The one game asked for, if there is one.
    Game(Option<GameRow>),
    Games(Vec<GameRow>),
    /// The one model definition asked for, if there is one.
    ModelDefinition(Option<ModelDefinitionRow>),
    ModelDefinitions(Vec<ModelDefinitionListRow>),
    /// The one user model asked for, if there is one.
    UserModel(Option<UserModelRow>),
    UserModels(Vec<UserModelListRow>),
}

pub enum ReplyView {
    Failed(Option<Seq<char>>),
    Done,
    Game(Option<GameRowView>),
    Games(Seq<GameRowView>),
    ModelDefinition(Option<ModelDefinitionRowView>),
    ModelDefinitions(Seq<ModelDefinitionListRowView>),
    UserModel(Option<UserModelRowView>),
    UserModels(Seq<UserModelListRowView>),
}

impl View for Reply {
    type V = ReplyView;

    open spec fn view(&self) -> ReplyView {
        match *self {
            Reply::Failed(failure) => ReplyView::Failed(failure@),
            Reply::Done => ReplyView::Done,
            Reply::Game(row) => ReplyView::Game(
                match row {
                    Some(row) => Some(row@),
                    None => None,
                },
            ),
            Reply::Games(rows) => ReplyView::Games(views(rows@)),
            Reply::ModelDefinition(row) => ReplyView::ModelDefinition(
                match row {
                    Some(row) => Some(row@),
                    None => None,
                },
            ),
            Reply::ModelDefinitions(rows) => ReplyView::ModelDefinitions(views(rows@)),
            Reply::UserModel(row) => ReplyView::UserModel(
                match row {
                    Some(row) => Some(row@),
                    None => None,
                },
            ),
            Reply::UserModels(rows) => ReplyView::UserModels(views(rows@)),
        }
    }
}

} // verus!
