//! The service on a store held in memory: each handler run to its end, and
//! what it returns and leaves behind.

use vstd::prelude::*;
use vstd::string::*;
use crate::error::{lemma_duplicate_wording, AppError, ErrorKind};
use crate::ident::{is_random_uuid, legible, random_uuid};
use crate::model::{
    lemma_with_definition, lemma_with_game, lemma_with_status, lemma_with_user_model,
    DefinitionView, StoreView,
};
use crate::protocol::{
    begin, begin_spec, resume, resume_spec, Action, ActionView, Request, RequestView, Response,
    ResponseView,
};
use crate::records::{
    CreateGame, CreateModelDefinition, CreateUserModel, Game, GameSummaryView, GameView,
    ModelDefinition, ModelDefinitionView, UpdateUserModel, UserModel, UserModelListItem,
    UserModelListItemView, UserModelView,
};
use crate::rows::{
    lemma_shaped_all_pointwise, seen, seen_all, shaped_all, shaped_game, shaped_list_item,
    shaped_listed_definition, GameRowView, ModelDefinitionListRowView, UserModelListRowView,
};
use crate::status::{lemma_wire_name_reads_back, Status};
use crate::store::Store;

verus! {

/// What registering a game does and returns: a conflict where the name is
/// taken; an internal error where the name is free and the identifier is
/// taken; else the game, which joins the table with `now` as its creation
/// time.
pub open spec fn game_creation(
    store: StoreView,
    name: Seq<char>,
    id: u128,
    now: Seq<char>,
) -> (StoreView, Result<GameView, AppError>) {
    if store.has_game_named(name) {
        (store, Err(AppError::of(ErrorKind::Conflict, "game name already exists")))
    } else if store.has_game(id) {
        (store, Err(AppError::of(ErrorKind::Internal, "failed to create game")))
    } else {
        let game = GameView { id, name, created_at: now };
        (store.with_game(game), Ok(game))
    }
}

/// A model definition as handed out: with its game embedded.
pub open spec fn definition_with_game(
    store: StoreView,
    definition: DefinitionView,
) -> ModelDefinitionView {
    ModelDefinitionView {
        id: definition.id,
        name: definition.name,
        game: GameSummaryView {
            id: definition.game_id,
            name: store.game(definition.game_id).name,
        },
    }
}

/// What registering a model definition does and returns: not found where
/// the game is not there; an internal error where the identifier is taken;
/// else the definition with its game embedded.
pub open spec fn definition_creation(
    store: StoreView,
    name: Seq<char>,
    game_id: u128,
    id: u128,
    now: Seq<char>,
) -> (StoreView, Result<ModelDefinitionView, AppError>) {
    if !store.has_game(game_id) {
        (store, Err(AppError::of(ErrorKind::NotFound, "game not found")))
    } else if store.has_definition(id) {
        (store, Err(AppError::of(ErrorKind::Internal, "failed to create model definition")))
    } else {
        let definition = DefinitionView { id, name, game_id, created_at: now };
        (store.with_definition(definition), Ok(definition_with_game(store, definition)))
    }
}

/// What recording a user model does and returns. The body is held to its
/// rules first: a status that is none of the three wire names, then a
/// quantity that is not positive, is a validation error. Then: not found
/// where the model definition is not there; an internal error where the
/// identifier is taken; else the user model, created and updated at `now`.
pub open spec fn user_model_creation(
    store: StoreView,
    model_definition_id: u128,
    quantity: i32,
    status: Seq<char>,
    id: u128,
    now: Seq<char>,
) -> (StoreView, Result<UserModelView, AppError>) {
    match Status::named(status) {
        None => (
            store,
            Err(
                AppError::of(
                    ErrorKind::Validation,
                    "status must be one of unassembled, assembled, painted",
                ),
            ),
        ),
        Some(status) => {
            if quantity <= 0 {
                (
                    store,
                    Err(AppError::of(ErrorKind::Validation, "quantity must be greater than 0")),
                )
            } else if !store.has_definition(model_definition_id) {
                (store, Err(AppError::of(ErrorKind::NotFound, "model definition not found")))
            } else if store.has_user_model(id) {
                (store, Err(AppError::of(ErrorKind::Internal, "failed to create user model")))
            } else {
                let model = UserModelView {
                    id,
                    model_definition_id,
                    quantity,
                    status,
                    created_at: now,
                    updated_at: now,
                };
                (store.with_user_model(model), Ok(model))
            }
        },
    }
}

/// What a change of status does and returns: a validation error where the
/// status is none of the three wire names; not found where the user model
/// is not there; else the user model with the new status and `now` as its
/// update time, and otherwise as it was.
pub open spec fn user_model_update(
    store: StoreView,
    id: u128,
    status: Seq<char>,
    now: Seq<char>,
) -> (StoreView, Result<UserModelView, AppError>) {
    match Status::named(status) {
        None => (
            store,
            Err(
                AppError::of(
                    ErrorKind::Validation,
                    "status must be one of unassembled, assembled, painted",
                ),
            ),
        ),
        Some(status) => {
            if !store.has_user_model(id) {
                (store, Err(AppError::of(ErrorKind::NotFound, "user model not found")))
            } else {
                (
                    store.with_status(id, status, now),
                    Ok(UserModelView { status, updated_at: now, ..store.user_model(id) }),
                )
            }
        },
    }
}

/// All model definitions as a listing hands them out: in table order, each
/// with its game embedded.
pub open spec fn listed_definitions(store: StoreView) -> Seq<ModelDefinitionView> {
    Seq::new(
        store.definitions.len(),
        |at: int| definition_with_game(store, store.definitions[at]),
    )
}

/// A user model as listed: with the name of its definition and the name of
/// that definition's game.
pub open spec fn list_item(store: StoreView, model: UserModelView) -> UserModelListItemView {
    UserModelListItemView {
        id: model.id,
        model_name: store.definition(model.model_definition_id).name,
        game_name: store.game(store.definition(model.model_definition_id).game_id).name,
        quantity: model.quantity,
        status: model.status,
    }
}

/// All user models as a listing hands them out, in table order.
pub open spec fn listed_user_models(store: StoreView) -> Seq<UserModelListItemView> {
    Seq::new(store.user_models.len(), |at: int| list_item(store, store.user_models[at]))
}

/// The result of a creation without its status code, and with the view of
/// the record in place of the record.
pub open spec fn created<T: View>(result: Result<(u16, T), AppError>) -> Result<T::V, AppError> {
    match result {
        Ok((_, record)) => Ok(record@),
        Err(error) => Err(error),
    }
}

/// The dialogue run to its end: the store as the handler leaves it, and
/// the response.
pub open spec fn run_spec(store: StoreView, action: ActionView, now: Seq<char>) -> (
    StoreView,
    ResponseView,
)
    decreases action.statements_left(),
{
    match action {
        ActionView::Ask(query, pending) => run_spec(
            store.answer(query, now).0,
            resume_spec(pending, store.answer(query, now).1),
            now,
        ),
        ActionView::Respond(response) => (store, response),
    }
}

/// Every identifier in every answer along the dialogue reads back from its
/// written form.
pub open spec fn reads_back_along(store: StoreView, action: ActionView, now: Seq<char>) -> bool
    decreases action.statements_left(),
{
    match action {
        ActionView::Ask(query, pending) => store.reads_back(query) && reads_back_along(
            store.answer(query, now).0,
            resume_spec(pending, store.answer(query, now).1),
            now,
        ),
        ActionView::Respond(_) => true,
    }
}

/// Runs the dialogue against the store until the response stands.
pub fn run(store: &mut Store, action: Action, now: &str) -> (response: Response)
    requires
        old(store).wf(),
    ensures
        final(store).wf(),
        (final(store)@, response@) == run_spec(old(store)@, action@, now@),
        reads_back_along(old(store)@, action@, now@),
{
    let mut current = action;
    loop
        invariant
            store.wf(),
            run_spec(store@, current@, now@) == run_spec(old(store)@, action@, now@),
            reads_back_along(store@, current@, now@) ==> reads_back_along(
                old(store)@,
                action@,
                now@,
            ),
        decreases current@.statements_left(),
    {
        match current {
            Action::Respond(response) => {
                return response;
            },
            Action::Ask(query, pending) => {
                let reply = store.answer(query, now);
                current = resume(pending, reply);
            },
        }
    }
}

/// The response that stands for the result of a handler.
pub open spec fn response_of<T>(
    result: Result<T, AppError>,
    wrap: spec_fn(T) -> ResponseView,
) -> ResponseView {
    match result {
        Ok(record) => wrap(record),
        Err(error) => ResponseView::Failed(error),
    }
}

/// What the service does with a request and answers to it. `fresh` is the
/// identifier of the record that the request creates, if it creates one.
pub open spec fn service(store: StoreView, request: RequestView, fresh: u128, now: Seq<char>) -> (
    StoreView,
    ResponseView,
) {
    match request {
        RequestView::Health => (store, ResponseView::Health),
        RequestView::CreateGame { name } => (
            game_creation(store, name, fresh, now).0,
            response_of(
                game_creation(store, name, fresh, now).1,
                |game: GameView| ResponseView::GameCreated(game),
            ),
        ),
        RequestView::ListGames => (store, ResponseView::Games(store.games)),
        RequestView::CreateModelDefinition { name, game_id } => (
            definition_creation(store, name, game_id, fresh, now).0,
            response_of(
                definition_creation(store, name, game_id, fresh, now).1,
                |definition: ModelDefinitionView| ResponseView::ModelDefinitionCreated(definition),
            ),
        ),
        RequestView::ListModelDefinitions => (
            store,
            ResponseView::ModelDefinitions(listed_definitions(store)),
        ),
        RequestView::CreateUserModel { model_definition_id, quantity, status } => (
            user_model_creation(store, model_definition_id, quantity, status, fresh, now).0,
            response_of(
                user_model_creation(store, model_definition_id, quantity, status, fresh, now).1,
                |model: UserModelView| ResponseView::UserModelCreated(model),
            ),
        ),
        RequestView::ListUserModels => (store, ResponseView::UserModels(listed_user_models(store))),
        RequestView::UpdateUserModel { id, status } => (
            user_model_update(store, id, status, now).0,
            response_of(
                user_model_update(store, id, status, now).1,
                |model: UserModelView| ResponseView::UserModelUpdated(model),
            ),
        ),
    }
}

proof fn lemma_game_dialogue(store: StoreView, name: Seq<char>, fresh: u128, now: Seq<char>)
    requires
        store.wf(),
        reads_back_along(store, begin_spec(RequestView::CreateGame { name }, fresh), now),
    ensures
        run_spec(store, begin_spec(RequestView::CreateGame { name }, fresh), now) == service(
            store,
            RequestView::CreateGame { name },
            fresh,
            now,
        ),
{
    reveal_with_fuel(run_spec, 3);
    reveal_with_fuel(reads_back_along, 3);
    lemma_duplicate_wording();
    if !store.has_game_named(name) && !store.has_game(fresh) {
        lemma_with_game(store, GameView { id: fresh, name, created_at: now });
    }
}

proof fn lemma_games_dialogue(store: StoreView, fresh: u128, now: Seq<char>)
    requires
        store.wf(),
        reads_back_along(store, begin_spec(RequestView::ListGames, fresh), now),
    ensures
        run_spec(store, begin_spec(RequestView::ListGames, fresh), now) == service(
            store,
            RequestView::ListGames,
            fresh,
            now,
        ),
{
    reveal_with_fuel(run_spec, 2);
    reveal_with_fuel(reads_back_along, 2);
    let rows = store.game_rows();
    let shape = |row: GameRowView| shaped_game(row);
    assert forall|at: int| 0 <= at < rows.len() implies (#[trigger] shape(rows[at])) == Ok::<
        GameView,
        AppError,
    >(store.games[at]) by {
        assert(legible(store.games[at].id));
    }
    lemma_shaped_all_pointwise(rows, shape);
    assert(shaped_all(rows, shape)->Ok_0 =~= store.games);
}

proof fn lemma_definition_dialogue(
    store: StoreView,
    name: Seq<char>,
    game_id: u128,
    fresh: u128,
    now: Seq<char>,
)
    requires
        store.wf(),
        reads_back_along(
            store,
            begin_spec(RequestView::CreateModelDefinition { name, game_id }, fresh),
            now,
        ),
    ensures
        run_spec(
            store,
            begin_spec(RequestView::CreateModelDefinition { name, game_id }, fresh),
            now,
        ) == service(store, RequestView::CreateModelDefinition { name, game_id }, fresh, now),
{
    reveal_with_fuel(run_spec, 4);
    reveal_with_fuel(reads_back_along, 4);
    if store.has_game(game_id) && !store.has_definition(fresh) {
        lemma_with_definition(store, DefinitionView { id: fresh, name, game_id, created_at: now });
    }
}

proof fn lemma_definitions_dialogue(store: StoreView, fresh: u128, now: Seq<char>)
    requires
        store.wf(),
        reads_back_along(store, begin_spec(RequestView::ListModelDefinitions, fresh), now),
    ensures
        run_spec(store, begin_spec(RequestView::ListModelDefinitions, fresh), now) == service(
            store,
            RequestView::ListModelDefinitions,
            fresh,
            now,
        ),
{
    reveal_with_fuel(run_spec, 2);
    reveal_with_fuel(reads_back_along, 2);
    let rows = store.listed_definition_rows();
    let shape = |row: ModelDefinitionListRowView| shaped_listed_definition(row);
    assert forall|at: int| 0 <= at < rows.len() implies (#[trigger] shape(rows[at])) == Ok::<
        ModelDefinitionView,
        AppError,
    >(listed_definitions(store)[at]) by {
        let definition = store.definitions[at];
        assert(legible(definition.id));
        assert(store.has_game(definition.game_id));
    }
    lemma_shaped_all_pointwise(rows, shape);
    assert(shaped_all(rows, shape)->Ok_0 =~= listed_definitions(store));
}

proof fn lemma_user_model_dialogue(
    store: StoreView,
    model_definition_id: u128,
    quantity: i32,
    status: Seq<char>,
    fresh: u128,
    now: Seq<char>,
)
    requires
        store.wf(),
        reads_back_along(
            store,
            begin_spec(
                RequestView::CreateUserModel { model_definition_id, quantity, status },
                fresh,
            ),
            now,
        ),
    ensures
        run_spec(
            store,
            begin_spec(
                RequestView::CreateUserModel { model_definition_id, quantity, status },
                fresh,
            ),
            now,
        ) == service(
            store,
            RequestView::CreateUserModel { model_definition_id, quantity, status },
            fresh,
            now,
        ),
{
    reveal_with_fuel(run_spec, 4);
    reveal_with_fuel(reads_back_along, 4);
    if let Some(status) = Status::named(status) {
        lemma_wire_name_reads_back(status);
        if quantity > 0 && store.has_definition(model_definition_id) && !store.has_user_model(
            fresh,
        ) {
            lemma_with_user_model(
                store,
                UserModelView {
                    id: fresh,
                    model_definition_id,
                    quantity,
                    status,
                    created_at: now,
                    updated_at: now,
                },
            );
        }
    }
}

proof fn lemma_user_models_dialogue(store: StoreView, fresh: u128, now: Seq<char>)
    requires
        store.wf(),
        reads_back_along(store, begin_spec(RequestView::ListUserModels, fresh), now),
    ensures
        run_spec(store, begin_spec(RequestView::ListUserModels, fresh), now) == service(
            store,
            RequestView::ListUserModels,
            fresh,
            now,
        ),
{
    reveal_with_fuel(run_spec, 2);
    reveal_with_fuel(reads_back_along, 2);
    let rows = store.listed_user_model_rows();
    let shape = |row: UserModelListRowView| shaped_list_item(row);
    assert forall|at: int| 0 <= at < rows.len() implies (#[trigger] shape(rows[at])) == Ok::<
        UserModelListItemView,
        AppError,
    >(listed_user_models(store)[at]) by {
        let model = store.user_models[at];
        assert(legible(model.id));
        lemma_wire_name_reads_back(model.status);
    }
    lemma_shaped_all_pointwise(rows, shape);
    assert(shaped_all(rows, shape)->Ok_0 =~= listed_user_models(store));
}

proof fn lemma_update_dialogue(
    store: StoreView,
    id: u128,
    status: Seq<char>,
    fresh: u128,
    now: Seq<char>,
)
    requires
        store.wf(),
        reads_back_along(store, begin_spec(RequestView::UpdateUserModel { id, status }, fresh), now),
    ensures
        run_spec(store, begin_spec(RequestView::UpdateUserModel { id, status }, fresh), now)
            == service(store, RequestView::UpdateUserModel { id, status }, fresh, now),
{
    reveal_with_fuel(run_spec, 3);
    reveal_with_fuel(reads_back_along, 3);
    if let Some(status) = Status::named(status) {
        lemma_wire_name_reads_back(status);
        lemma_with_status(store, id, status, now);
    }
}

/// The dialogue of every request, run against a store in which the rules
/// hold, does to the store and answers what the service is meant to.
pub proof fn lemma_dialogue_is_service(
    store: StoreView,
    request: RequestView,
    fresh: u128,
    now: Seq<char>,
)
    requires
        store.wf(),
        reads_back_along(store, begin_spec(request, fresh), now),
    ensures
        run_spec(store, begin_spec(request, fresh), now) == service(store, request, fresh, now),
{
    match request {
        RequestView::Health => {},
        RequestView::CreateGame { name } => lemma_game_dialogue(store, name, fresh, now),
        RequestView::ListGames => lemma_games_dialogue(store, fresh, now),
        RequestView::CreateModelDefinition { name, game_id } => lemma_definition_dialogue(
            store,
            name,
            game_id,
            fresh,
            now,
        ),
        RequestView::ListModelDefinitions => lemma_definitions_dialogue(store, fresh, now),
        RequestView::CreateUserModel {
            model_definition_id,
            quantity,
            status,
        } => lemma_user_model_dialogue(store, model_definition_id, quantity, status, fresh, now),
        RequestView::ListUserModels => lemma_user_models_dialogue(store, fresh, now),
        RequestView::UpdateUserModel { id, status } => lemma_update_dialogue(
            store,
            id,
            status,
            fresh,
            now,
        ),
    }
}

/// Answers a request at the time `now`. A record that the request creates
/// gets the identifier `fresh`.
pub fn serve_with_id(store: &mut Store, request: Request, fresh: u128, now: &str) -> (response:
    Response)
    requires
        old(store).wf(),
    ensures
        final(store).wf(),
        (final(store)@, response@) == service(old(store)@, request@, fresh, now@),
{
    let ghost asked = request@;
    let response = run(store, begin(request, fresh), now);
    proof {
        lemma_dialogue_is_service(old(store)@, asked, fresh, now@);
    }
    response
}

/// Answers a request at the time `now`, with a random identifier for a
/// record that the request creates.
pub fn serve(store: &mut Store, request: Request, now: &str) -> (response: Response)
    requires
        old(store).wf(),
    ensures
        final(store).wf(),
        exists|fresh: u128|
            is_random_uuid(fresh) && (final(store)@, response@) == #[trigger] service(
                old(store)@,
                request@,
                fresh,
                now@,
            ),
{
    let fresh = random_uuid();
    serve_with_id(store, request, fresh, now)
}

/// Registers a game under the identifier `id` at the time `now`.
pub fn create_game_with_id(store: &mut Store, payload: CreateGame, id: u128, now: &str) -> (result:
    Result<(u16, Game), AppError>)
    requires
        old(store).wf(),
    ensures
        final(store).wf(),
        (final(store)@, created(result)) == game_creation(old(store)@, payload.name@, id, now@),
        result matches Ok((code, game)) ==> code == 201 && final(store)@.has_game(id)
            && final(store)@.game(id) == game@ && final(store)@.has_game_named(payload.name@),
{
    let ghost game = GameView { id, name: payload.name@, created_at: now@ };
    proof {
        if !store@.has_game_named(game.name) && !store@.has_game(id) {
            lemma_with_game(store@, game);
        }
    }
    match serve_with_id(store, Request::CreateGame(payload), id, now) {
        Response::GameCreated(game) => Ok((201, game)),
        Response::Failed(error) => Err(error),
        _ => Err(AppError::internal_message("failed to create game")),
    }
}

/// Registers a game under a random identifier at the time `now`.
///
/// Which identifier is drawn is left open; the contract holds for the one
/// that was. A name that is taken is a conflict whatever was drawn.
pub fn create_game(store: &mut Store, payload: CreateGame, now: &str) -> (result: Result<
    (u16, Game),
    AppError,
>)
    requires
        old(store).wf(),
    ensures
        final(store).wf(),
        exists|id: u128|
            is_random_uuid(id) && (final(store)@, created(result)) == #[trigger] game_creation(
                old(store)@,
                payload.name@,
                id,
                now@,
            ),
        old(store)@.has_game_named(payload.name@) ==> final(store)@ == old(store)@ && result
            == Err::<(u16, Game), AppError>(
            AppError::of(ErrorKind::Conflict, "game name already exists"),
        ),
        result matches Ok((code, game)) ==> code == 201 && final(store)@.has_game(game.id)
            && final(store)@.game(game.id) == game@ && final(store)@.has_game_named(
            payload.name@,
        ),
{
    let id = random_uuid();
    create_game_with_id(store, payload, id, now)
}

/// Lists all games by creation time.
pub fn list_games(store: &mut Store) -> (result: Result<Vec<Game>, AppError>)
    requires
        old(store).wf(),
    ensures
        final(store)@ == old(store)@,
        seen_all(result) == Ok::<Seq<GameView>, AppError>(old(store)@.games),
{
    match serve_with_id(store, Request::ListGames, 0, "") {
        Response::Games(games) => Ok(games),
        Response::Failed(error) => Err(error),
        _ => Err(AppError::internal_message("failed to fetch games")),
    }
}

/// Registers a model definition under the identifier `id` at the time `now`.
pub fn create_model_definition_with_id(
    store: &mut Store,
    payload: CreateModelDefinition,
    id: u128,
    now: &str,
) -> (result: Result<(u16, ModelDefinition), AppError>)
    requires
        old(store).wf(),
    ensures
        final(store).wf(),
        (final(store)@, created(result)) == definition_creation(
            old(store)@,
            payload.name@,
            payload.game_id,
            id,
            now@,
        ),
        result matches Ok((code, _)) ==> code == 201 && final(store)@.has_definition(id)
            && final(store)@.definition(id) == (DefinitionView {
            id,
            name: payload.name@,
            game_id: payload.game_id,
            created_at: now@,
        }),
{
    let ghost definition = DefinitionView {
        id,
        name: payload.name@,
        game_id: payload.game_id,
        created_at: now@,
    };
    proof {
        if store@.has_game(definition.game_id) && !store@.has_definition(id) {
            lemma_with_definition(store@, definition);
        }
    }
    match serve_with_id(store, Request::CreateModelDefinition(payload), id, now) {
        Response::ModelDefinitionCreated(definition) => Ok((201, definition)),
        Response::Failed(error) => Err(error),
        _ => Err(AppError::internal_message("failed to create model definition")),
    }
}

/// Registers a model definition under a random identifier at the time
/// `now`. A game that is not there is not found whatever was drawn.
pub fn create_model_definition(store: &mut Store, payload: CreateModelDefinition, now: &str) -> (result:
    Result<(u16, ModelDefinition), AppError>)
    requires
        old(store).wf(),
    ensures
        final(store).wf(),
        exists|id: u128|
            is_random_uuid(id) && (final(store)@, created(result))
                == #[trigger] definition_creation(
                old(store)@,
                payload.name@,
                payload.game_id,
                id,
                now@,
            ),
        !old(store)@.has_game(payload.game_id) ==> final(store)@ == old(store)@ && result
            == Err::<(u16, ModelDefinition), AppError>(
            AppError::of(ErrorKind::NotFound, "game not found"),
        ),
        result matches Ok((code, definition)) ==> code == 201 && final(store)@.has_definition(
            definition.id,
        ) && final(store)@.definition(definition.id) == (DefinitionView {
            id: definition.id,
            name: payload.name@,
            game_id: payload.game_id,
            created_at: now@,
        }),
{
    let id = random_uuid();
    create_model_definition_with_id(store, payload, id, now)
}

/// Lists all model definitions by creation time, each with its game.
pub fn list_model_definitions(store: &mut Store) -> (result: Result<
    Vec<ModelDefinition>,
    AppError,
>)
    requires
        old(store).wf(),
    ensures
        final(store)@ == old(store)@,
        seen_all(result) == Ok::<Seq<ModelDefinitionView>, AppError>(
            listed_definitions(old(store)@),
        ),
{
    match serve_with_id(store, Request::ListModelDefinitions, 0, "") {
        Response::ModelDefinitions(definitions) => Ok(definitions),
        Response::Failed(error) => Err(error),
        _ => Err(AppError::internal_message("failed to fetch model definitions")),
    }
}

/// Records a user model under the identifier `id` at the time `now`.
pub fn create_user_model_with_id(
    store: &mut Store,
    payload: CreateUserModel,
    id: u128,
    now: &str,
) -> (result: Result<(u16, UserModel), AppError>)
    requires
        old(store).wf(),
    ensures
        final(store).wf(),
        (final(store)@, created(result)) == user_model_creation(
            old(store)@,
            payload.model_definition_id,
            payload.quantity,
            payload.status@,
            id,
            now@,
        ),
        result matches Ok((code, model)) ==> code == 201 && final(store)@.has_user_model(id)
            && final(store)@.user_model(id) == model@,
{
    proof {
        if let Some(status) = Status::named(payload.status@) {
            if payload.quantity > 0 && store@.has_definition(payload.model_definition_id)
                && !store@.has_user_model(id) {
                lemma_with_user_model(
                    store@,
                    UserModelView {
                        id,
                        model_definition_id: payload.model_definition_id,
                        quantity: payload.quantity,
                        status,
                        created_at: now@,
                        updated_at: now@,
                    },
                );
            }
        }
    }
    match serve_with_id(store, Request::CreateUserModel(payload), id, now) {
        Response::UserModelCreated(model) => Ok((201, model)),
        Response::Failed(error) => Err(error),
        _ => Err(AppError::internal_message("failed to create user model")),
    }
}

/// Records a user model under a random identifier at the time `now`. A
/// body that breaks its rules is a validation error, and a model definition
/// that is not there is not found, whatever was drawn.
pub fn create_user_model(store: &mut Store, payload: CreateUserModel, now: &str) -> (result:
    Result<(u16, UserModel), AppError>)
    requires
        old(store).wf(),
    ensures
        final(store).wf(),
        exists|id: u128|
            is_random_uuid(id) && (final(store)@, created(result))
                == #[trigger] user_model_creation(
                old(store)@,
                payload.model_definition_id,
                payload.quantity,
                payload.status@,
                id,
                now@,
            ),
        Status::named(payload.status@) is None || payload.quantity <= 0 ==> final(store)@
            == old(store)@ && (result matches Err(error) && error.kind == ErrorKind::Validation),
        result matches Ok((code, model)) ==> code == 201 && final(store)@.has_user_model(
            model.id,
        ) && final(store)@.user_model(model.id) == model@,
{
    let id = random_uuid();
    create_user_model_with_id(store, payload, id, now)
}

/// Lists all user models by creation time, each with the names of its
/// definition and of that definition's game.
pub fn list_user_models(store: &mut Store) -> (result: Result<Vec<UserModelListItem>, AppError>)
    requires
        old(store).wf(),
    ensures
        final(store)@ == old(store)@,
        seen_all(result) == Ok::<Seq<UserModelListItemView>, AppError>(
            listed_user_models(old(store)@),
        ),
{
    match serve_with_id(store, Request::ListUserModels, 0, "") {
        Response::UserModels(models) => Ok(models),
        Response::Failed(error) => Err(error),
        _ => Err(AppError::internal_message("failed to fetch user models")),
    }
}

/// Sets the status of the user model `id` at the time `now`.
pub fn update_user_model(store: &mut Store, id: u128, payload: UpdateUserModel, now: &str) -> (result:
    Result<UserModel, AppError>)
    requires
        old(store).wf(),
    ensures
        final(store).wf(),
        (final(store)@, seen(result)) == user_model_update(old(store)@, id, payload.status@, now@),
        result matches Ok(model) ==> final(store)@.has_user_model(id) && final(store)@.user_model(
            id,
        ) == model@,
{
    proof {
        if let Some(status) = Status::named(payload.status@) {
            lemma_with_status(store@, id, status, now@);
        }
    }
    match serve_with_id(store, Request::UpdateUserModel(id, payload), 0, now) {
        Response::UserModelUpdated(model) => Ok(model),
        Response::Failed(error) => Err(error),
        _ => Err(AppError::internal_message("failed to update user model")),
    }
}

/// The answer to a health check.
pub fn health() -> (status: &'static str)
    ensures
        status@ == "ok"@,
{
    "ok"
}

} // verus!
