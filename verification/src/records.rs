//! The records that the service hands out, the bodies of the requests that
//! create or change them, and the mathematical view of each.

use vstd::prelude::*;
use vstd::string::*;
use crate::status::Status;

verus! {

/// The views of the items of a sequence, in the same order.
pub open spec fn views<T: View>(items: Seq<T>) -> Seq<T::V> {
    Seq::new(items.len(), |at: int| items[at]@)
}

/// A tabletop game that model definitions belong to.
#[derive(Debug, PartialEq, Eq)]
pub struct Game {
    pub id: u128,
    pub name: String,
    pub created_at: String,
}

pub struct GameView {
    pub id: u128,
    pub name: Seq<char>,
    pub created_at: Seq<char>,
}

impl View for Game {
    type V = GameView;

    open spec fn view(&self) -> GameView {
        GameView { id: self.id, name: self.name@, created_at: self.created_at@ }
    }
}

impl Clone for Game {
    fn clone(&self) -> (copy: Game)
        ensures
            copy == *self,
    {
        Game { id: self.id, name: self.name.clone(), created_at: self.created_at.clone() }
    }
}

/// The game of a model definition, as embedded in the definition.
#[derive(Debug, PartialEq, Eq)]
pub struct GameSummary {
    pub id: u128,
    pub name: String,
}

pub struct GameSummaryView {
    pub id: u128,
    pub name: Seq<char>,
}

impl View for GameSummary {
    type V = GameSummaryView;

    open spec fn view(&self) -> GameSummaryView {
        GameSummaryView { id: self.id, name: self.name@ }
    }
}

impl Clone for GameSummary {
    fn clone(&self) -> (copy: GameSummary)
        ensures
            copy == *self,
    {
        GameSummary { id: self.id, name: self.name.clone() }
    }
}

/// A named kind of model, with the game it belongs to.
#[derive(Debug, PartialEq, Eq)]
pub struct ModelDefinition {
    pub id: u128,
    pub name: String,
    pub game: GameSummary,
}

pub struct ModelDefinitionView {
    pub id: u128,
    pub name: Seq<char>,
    pub game: GameSummaryView,
}

impl View for ModelDefinition {
    type V = ModelDefinitionView;

    open spec fn view(&self) -> ModelDefinitionView {
        ModelDefinitionView { id: self.id, name: self.name@, game: self.game@ }
    }
}

impl Clone for ModelDefinition {
    fn clone(&self) -> (copy: ModelDefinition)
        ensures
            copy == *self,
    {
        ModelDefinition { id: self.id, name: self.name.clone(), game: self.game.clone() }
    }
}

/// An owned batch of models of one definition.
#[derive(Debug, PartialEq, Eq)]
pub struct UserModel {
    pub id: u128,
    pub model_definition_id: u128,
    pub quantity: i32,
    pub status: Status,
    pub created_at: String,
    pub updated_at: String,
}

pub struct UserModelView {
    pub id: u128,
    pub model_definition_id: u128,
    pub quantity: i32,
    pub status: Status,
    pub created_at: Seq<char>,
    pub updated_at: Seq<char>,
}

impl View for UserModel {
    type V = UserModelView;

    open spec fn view(&self) -> UserModelView {
        UserModelView {
            id: self.id,
            model_definition_id: self.model_definition_id,
            quantity: self.quantity,
            status: self.status,
            created_at: self.created_at@,
            updated_at: self.updated_at@,
        }
    }
}

impl Clone for UserModel {
    fn clone(&self) -> (copy: UserModel)
        ensures
            copy == *self,
    {
        UserModel {
            id: self.id,
            model_definition_id: self.model_definition_id,
            quantity: self.quantity,
            status: self.status,
            created_at: self.created_at.clone(),
            updated_at: self.updated_at.clone(),
        }
    }
}

/// An owned batch as listed: with the names of its definition and of that
/// definition's game in place of their identifiers.
#[derive(Debug, PartialEq, Eq)]
pub struct UserModelListItem {
    pub id: u128,
    pub model_name: String,
    pub game_name: String,
    pub quantity: i32,
    pub status: Status,
}

pub struct UserModelListItemView {
    pub id: u128,
    pub model_name: Seq<char>,
    pub game_name: Seq<char>,
    pub quantity: i32,
    pub status: Status,
}

impl View for UserModelListItem {
    type V = UserModelListItemView;

    open spec fn view(&self) -> UserModelListItemView {
        UserModelListItemView {
            id: self.id,
            model_name: self.model_name@,
            game_name: self.game_name@,
            quantity: self.quantity,
            status: self.status,
        }
    }
}

impl Clone for UserModelListItem {
    fn clone(&self) -> (copy: UserModelListItem)
        ensures
            copy == *self,
    {
        UserModelListItem {
            id: self.id,
            model_name: self.model_name.clone(),
            game_name: self.game_name.clone(),
            quantity: self.quantity,
            status: self.status,
        }
    }
}

/// The body of a request that registers a game.
#[derive(Debug, PartialEq, Eq)]
pub struct CreateGame {
    pub name: String,
}

/// The body of a request that registers a model definition.
#[derive(Debug, PartialEq, Eq)]
pub struct CreateModelDefinition {
    pub name: String,
    pub game_id: u128,
}

/// The body of a request that records an owned batch. The status comes as
/// written on the wire and is yet to be read.
#[derive(Debug, PartialEq, Eq)]
pub struct CreateUserModel {
    pub model_definition_id: u128,
    pub quantity: i32,
    pub status: String,
}

/// The body of a request that changes the status of an owned batch.
#[derive(Debug, PartialEq, Eq)]
pub struct UpdateUserModel {
    pub status: String,
}

} // verus!
