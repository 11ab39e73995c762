//! What holds of the service, whatever the requests and the state of the
//! store.

use vstd::prelude::*;
use crate::error::{AppError, ErrorKind};
use crate::model::{
    definition_at, lemma_slot, lemma_slot_at_end, lemma_with_definition, lemma_with_game,
    lemma_with_status, lemma_with_user_model, sorted, user_model_at, DefinitionView, StoreView,
};
use crate::protocol::{begin_spec, resume_spec, PendingView, RequestView};
use crate::query::ReplyView;
use crate::records::{
    GameSummaryView, GameView, ModelDefinitionView, UserModelListItemView, UserModelView,
};
use crate::service::{
    definition_creation, definition_with_game, game_creation, list_item, listed_definitions,
    listed_user_models, service, user_model_creation, user_model_update,
};
use crate::status::Status;
use crate::text::text_le;

verus! {

/// The store after these games were registered one after the other, each
/// under its identifier and at its creation time.
pub open spec fn registered(store: StoreView, games: Seq<GameView>) -> StoreView
    decreases games.len(),
{
    if games.len() == 0 {
        store
    } else {
        game_creation(
            registered(store, games.drop_last()),
            games.last().name,
            games.last().id,
            games.last().created_at,
        ).0
    }
}

/// Neither two of these games, nor one of them and a game of the store,
/// share a name or an identifier.
pub open spec fn all_new(store: StoreView, games: Seq<GameView>) -> bool {
    &&& forall|at: int|
        0 <= at < games.len() ==> !store.has_game((#[trigger] games[at]).id)
            && !store.has_game_named(games[at].name)
    &&& forall|a: int, b: int|
        0 <= a < b < games.len() ==> games[a].id != games[b].id && games[a].name
            != games[b].name
}

/// Each of these games is created no earlier than every game of the store
/// and every game before it.
pub open spec fn in_time(store: StoreView, games: Seq<GameView>) -> bool {
    &&& forall|old: int, at: int|
        0 <= old < store.games.len() && 0 <= at < games.len() ==> text_le(
            store.games[old].created_at,
            games[at].created_at,
        )
    &&& forall|a: int, b: int|
        0 <= a <= b < games.len() ==> text_le(games[a].created_at, games[b].created_at)
}

/// Every request leaves the rules of the tables in force.
pub proof fn law_rules_hold_after_every_request(
    store: StoreView,
    request: RequestView,
    fresh: u128,
    now: Seq<char>,
)
    requires
        store.wf(),
    ensures
        service(store, request, fresh, now).0.wf(),
{
    match request {
        RequestView::CreateGame { name } => {
            if !store.has_game_named(name) && !store.has_game(fresh) {
                lemma_with_game(store, GameView { id: fresh, name, created_at: now });
            }
        },
        RequestView::CreateModelDefinition { name, game_id } => {
            if store.has_game(game_id) && !store.has_definition(fresh) {
                lemma_with_definition(
                    store,
                    DefinitionView { id: fresh, name, game_id, created_at: now },
                );
            }
        },
        RequestView::CreateUserModel { model_definition_id, quantity, status } => {
            if let Some(status) = Status::named(status) {
                if quantity > 0 && store.has_definition(model_definition_id)
                    && !store.has_user_model(fresh) {
                    lemma_with_user_model(
                        store,
                        UserModelView {
                            id: fresh,
                            model_definition_id,
                            quantity,
                            status,
                            created_at: now,
                            updated_at: now,
                        },
                    );
                }
            }
        },
        RequestView::UpdateUserModel { id, status } => {
            if let Some(status) = Status::named(status) {
                lemma_with_status(store, id, status, now);
            }
        },
        _ => {},
    }
}

/// No request takes more than three statements, and with every answer of
/// the store fewer are left.
pub proof fn law_three_statements_at_most(
    request: RequestView,
    fresh: u128,
    pending: PendingView,
    reply: ReplyView,
)
    ensures
        begin_spec(request, fresh).statements_left() <= 3,
        resume_spec(pending, reply).statements_left() <= pending.statements_left(),
{
}

/// Every listing is in ascending order of creation time: of two rows of a
/// table, the one listed first was created no later.
pub proof fn law_listings_ascend(store: StoreView, first: int, second: int)
    requires
        store.wf(),
        0 <= first <= second,
    ensures
        second < store.games.len() ==> text_le(
            store.games[first].created_at,
            store.games[second].created_at,
        ),
        second < store.definitions.len() ==> text_le(
            store.definitions[first].created_at,
            store.definitions[second].created_at,
        ),
        second < store.user_models.len() ==> text_le(
            store.user_models[first].created_at,
            store.user_models[second].created_at,
        ),
{
    if second < store.games.len() {
        assert(text_le(store.game_stamps()[first], store.game_stamps()[second]));
    }
    if second < store.definitions.len() {
        assert(text_le(store.definition_stamps()[first], store.definition_stamps()[second]));
    }
    if second < store.user_models.len() {
        assert(text_le(store.user_model_stamps()[first], store.user_model_stamps()[second]));
    }
}

/// Games registered one after the other, whether each is accepted or not,
/// leave a listing of games in ascending order of creation time.
pub proof fn law_registered_games_ascend(store: StoreView, games: Seq<GameView>)
    requires
        store.wf(),
    ensures
        registered(store, games).wf(),
        sorted(registered(store, games).game_stamps()),
    decreases games.len(),
{
    if games.len() > 0 {
        let before = registered(store, games.drop_last());
        law_registered_games_ascend(store, games.drop_last());
        let game = games.last();
        if !before.has_game_named(game.name) && !before.has_game(game.id) {
            lemma_with_game(before, game);
        }
    }
}

/// Games with names and identifiers that are new and differ from one
/// another are all accepted: each is listed as it was registered, and the
/// games that were there before are listed as they were.
pub proof fn law_new_games_are_listed(store: StoreView, games: Seq<GameView>)
    requires
        store.wf(),
        all_new(store, games),
    ensures
        registered(store, games).wf(),
        registered(store, games).games.len() == store.games.len() + games.len(),
        forall|at: int|
            0 <= at < games.len() ==> registered(store, games).has_game(
                (#[trigger] games[at]).id,
            ) && registered(store, games).game(games[at].id) == games[at],
        forall|id: u128|
            store.has_game(id) ==> registered(store, games).has_game(id) && registered(
                store,
                games,
            ).game(id) == store.game(id),
        forall|id: u128| #[trigger]
            registered(store, games).has_game(id) ==> store.has_game(id) || exists|at: int|
                0 <= at < games.len() && (#[trigger] games[at]).id == id,
        forall|name: Seq<char>| #[trigger]
            registered(store, games).has_game_named(name) ==> store.has_game_named(name)
                || exists|at: int| 0 <= at < games.len() && (#[trigger] games[at]).name == name,
    decreases games.len(),
{
    if games.len() > 0 {
        let front = games.drop_last();
        let before = registered(store, front);
        let game = games.last();
        let after = registered(store, games);
        assert(all_new(store, front)) by {
            assert forall|at: int| 0 <= at < front.len() implies !store.has_game(
                (#[trigger] front[at]).id,
            ) && !store.has_game_named(front[at].name) by {
                assert(front[at] == games[at]);
            }
            assert forall|a: int, b: int| 0 <= a < b < front.len() implies front[a].id
                != front[b].id && front[a].name != front[b].name by {
                assert(front[a] == games[a]);
                assert(front[b] == games[b]);
            }
        }
        law_new_games_are_listed(store, front);
        assert(!before.has_game(game.id)) by {
            if before.has_game(game.id) {
                assert(games[games.len() - 1] == game);
                assert(!store.has_game(game.id));
                let at = choose|at: int| 0 <= at < front.len() && (#[trigger] front[at]).id
                    == game.id;
                assert(front[at] == games[at]);
            }
        }
        assert(!before.has_game_named(game.name)) by {
            if before.has_game_named(game.name) {
                assert(games[games.len() - 1] == game);
                assert(!store.has_game_named(game.name));
                let at = choose|at: int| 0 <= at < front.len() && (#[trigger] front[at]).name
                    == game.name;
                assert(front[at] == games[at]);
            }
        }
        lemma_with_game(before, game);
        assert(after == before.with_game(game));
        lemma_slot(before.game_stamps(), game.created_at);
        assert(after.games.len() == before.games.len() + 1);
        assert forall|at: int| 0 <= at < games.len() implies after.has_game(
            (#[trigger] games[at]).id,
        ) && after.game(games[at].id) == games[at] by {
            if at < front.len() {
                assert(front[at] == games[at]);
                assert(before.has_game(front[at].id));
            }
        }
        assert forall|id: u128| #[trigger] after.has_game(id) implies store.has_game(id)
            || exists|at: int| 0 <= at < games.len() && (#[trigger] games[at]).id == id by {
            if id == game.id {
                assert(games[games.len() - 1].id == id);
            } else if !store.has_game(id) {
                assert(before.has_game(id));
                let at = choose|at: int| 0 <= at < front.len() && (#[trigger] front[at]).id
                    == id;
                assert(games[at].id == id);
            }
        }
        assert forall|name: Seq<char>| #[trigger] after.has_game_named(name) implies
            store.has_game_named(name) || exists|at: int|
            0 <= at < games.len() && (#[trigger] games[at]).name == name by {
            if name == game.name {
                assert(games[games.len() - 1].name == name);
            } else if !store.has_game_named(name) {
                assert(before.has_game_named(name));
                let at = choose|at: int| 0 <= at < front.len() && (#[trigger] front[at]).name
                    == name;
                assert(games[at].name == name);
            }
        }
    }
}

/// Games with new and distinct names and identifiers, registered while the
/// clock does not run backwards, are listed behind the games that were
/// there, in the order in which they were registered.
pub proof fn law_games_listed_in_order_of_creation(store: StoreView, games: Seq<GameView>)
    requires
        store.wf(),
        all_new(store, games),
        in_time(store, games),
    ensures
        registered(store, games).games == store.games + games,
    decreases games.len(),
{
    if games.len() == 0 {
        assert(store.games + games =~= store.games);
    } else {
        let front = games.drop_last();
        let before = registered(store, front);
        let game = games.last();
        assert(all_new(store, front) && in_time(store, front)) by {
            assert forall|at: int| 0 <= at < front.len() implies front[at] == games[at] by {}
        }
        law_games_listed_in_order_of_creation(store, front);
        law_new_games_are_listed(store, games);
        law_new_games_are_listed(store, front);
        assert(!before.has_game(game.id) && !before.has_game_named(game.name)) by {
            assert(games[games.len() - 1] == game);
            if before.has_game(game.id) {
                let at = choose|at: int| 0 <= at < front.len() && (#[trigger] front[at]).id
                    == game.id;
                assert(front[at] == games[at]);
            }
            if before.has_game_named(game.name) {
                let at = choose|at: int| 0 <= at < front.len() && (#[trigger] front[at]).name
                    == game.name;
                assert(front[at] == games[at]);
            }
        }
        let stamps = before.game_stamps();
        assert forall|at: int| 0 <= at < stamps.len() implies text_le(
            stamps[at],
            game.created_at,
        ) by {
            assert(games[games.len() - 1] == game);
            if at < store.games.len() {
                assert(before.games[at] == store.games[at]);
            } else {
                assert(before.games[at] == games[at - store.games.len()]);
            }
        }
        lemma_slot_at_end(stamps, game.created_at);
        assert(registered(store, games).games =~= store.games + games);
    }
}

/// A game whose name is taken is refused as a conflict, and the store
/// stays as it is: no second row of that name comes to be.
pub proof fn law_taken_name_is_a_conflict(
    store: StoreView,
    name: Seq<char>,
    id: u128,
    now: Seq<char>,
)
    requires
        store.has_game_named(name),
    ensures
        game_creation(store, name, id, now) == (
            store,
            Err::<GameView, AppError>(
                AppError::of(ErrorKind::Conflict, "game name already exists"),
            ),
        ),
{
}

/// Once a game is registered, every later registration under its name is
/// refused as a conflict and changes nothing.
pub proof fn law_second_registration_is_a_conflict(
    store: StoreView,
    name: Seq<char>,
    first_id: u128,
    first_now: Seq<char>,
    second_id: u128,
    second_now: Seq<char>,
)
    requires
        store.wf(),
        game_creation(store, name, first_id, first_now).1 is Ok,
    ensures
        game_creation(
            game_creation(store, name, first_id, first_now).0,
            name,
            second_id,
            second_now,
        ) == (
            game_creation(store, name, first_id, first_now).0,
            Err::<GameView, AppError>(
                AppError::of(ErrorKind::Conflict, "game name already exists"),
            ),
        ),
{
    lemma_with_game(store, GameView { id: first_id, name, created_at: first_now });
}

/// A model definition under a game that is not there is refused as not
/// found, and the store stays as it is.
pub proof fn law_unknown_game_is_not_found(
    store: StoreView,
    name: Seq<char>,
    game_id: u128,
    id: u128,
    now: Seq<char>,
)
    requires
        !store.has_game(game_id),
    ensures
        definition_creation(store, name, game_id, id, now) == (
            store,
            Err::<ModelDefinitionView, AppError>(
                AppError::of(ErrorKind::NotFound, "game not found"),
            ),
        ),
{
}

/// A model definition under a game that is there, with an identifier that
/// is free, is accepted. It is in the store afterwards, the game embedded
/// in what is returned is that game under its name in the store, and the
/// listing of definitions holds it just as returned.
pub proof fn law_definition_is_kept_with_its_game(
    store: StoreView,
    name: Seq<char>,
    game_id: u128,
    id: u128,
    now: Seq<char>,
)
    requires
        store.wf(),
        store.has_game(game_id),
        !store.has_definition(id),
    ensures
        definition_creation(store, name, game_id, id, now).1 == Ok::<
            ModelDefinitionView,
            AppError,
        >(
            ModelDefinitionView {
                id,
                name,
                game: GameSummaryView { id: game_id, name: store.game(game_id).name },
            },
        ),
        definition_creation(store, name, game_id, id, now).0.has_definition(id),
        definition_creation(store, name, game_id, id, now).0.definition(id) == (DefinitionView {
            id,
            name,
            game_id,
            created_at: now,
        }),
        definition_creation(store, name, game_id, id, now).0.game(game_id) == store.game(game_id),
        exists|at: int|
            0 <= at < listed_definitions(
                definition_creation(store, name, game_id, id, now).0,
            ).len() && Ok::<ModelDefinitionView, AppError>(
                #[trigger] listed_definitions(
                    definition_creation(store, name, game_id, id, now).0,
                )[at],
            ) == definition_creation(store, name, game_id, id, now).1,
{
    let definition = DefinitionView { id, name, game_id, created_at: now };
    let after = store.with_definition(definition);
    lemma_with_definition(store, definition);
    let at = choose|at: int| definition_at(after.definitions, at, id);
    assert(after.definitions[at] == definition);
    assert(listed_definitions(after)[at] == definition_with_game(after, definition));
}

/// A user model whose status is none of the three wire names is refused
/// with a validation error, and the store stays as it is.
pub proof fn law_unknown_status_is_refused(
    store: StoreView,
    model_definition_id: u128,
    quantity: i32,
    status: Seq<char>,
    id: u128,
    now: Seq<char>,
)
    requires
        Status::named(status) is None,
    ensures
        user_model_creation(store, model_definition_id, quantity, status, id, now).0 == store,
        user_model_creation(store, model_definition_id, quantity, status, id, now).1 matches Err(
            error,
        ) && error.kind == ErrorKind::Validation && error.kind.code() == 422,
        user_model_update(store, id, status, now).0 == store,
        user_model_update(store, id, status, now).1 matches Err(error) && error.kind
            == ErrorKind::Validation,
{
}

/// A user model with a quantity that is not positive is refused with a
/// validation error, and the store stays as it is.
pub proof fn law_quantity_must_be_positive(
    store: StoreView,
    model_definition_id: u128,
    quantity: i32,
    status: Seq<char>,
    id: u128,
    now: Seq<char>,
)
    requires
        quantity <= 0,
    ensures
        user_model_creation(store, model_definition_id, quantity, status, id, now).0 == store,
        user_model_creation(store, model_definition_id, quantity, status, id, now).1 matches Err(
            error,
        ) && error.kind == ErrorKind::Validation,
{
}

/// A user model under a model definition that is there, with a status that
/// is one of the three, a positive quantity and an identifier that is free,
/// is accepted and returned with exactly those fields, created and updated
/// at the same time. It is in the store afterwards.
pub proof fn law_user_model_is_kept_as_given(
    store: StoreView,
    model_definition_id: u128,
    quantity: i32,
    status: Status,
    id: u128,
    now: Seq<char>,
)
    requires
        store.wf(),
        store.has_definition(model_definition_id),
        quantity > 0,
        !store.has_user_model(id),
    ensures
        user_model_creation(store, model_definition_id, quantity, status.wire(), id, now).1
            == Ok::<UserModelView, AppError>(
            UserModelView {
                id,
                model_definition_id,
                quantity,
                status,
                created_at: now,
                updated_at: now,
            },
        ),
        user_model_creation(
            store,
            model_definition_id,
            quantity,
            status.wire(),
            id,
            now,
        ).0.has_user_model(id),
        Ok::<UserModelView, AppError>(
            user_model_creation(
                store,
                model_definition_id,
                quantity,
                status.wire(),
                id,
                now,
            ).0.user_model(id),
        ) == user_model_creation(store, model_definition_id, quantity, status.wire(), id, now).1,
{
    crate::status::lemma_wire_name_reads_back(status);
    lemma_with_user_model(
        store,
        UserModelView {
            id,
            model_definition_id,
            quantity,
            status,
            created_at: now,
            updated_at: now,
        },
    );
}

/// A change of status, from any status to any other, gives the user model
/// the new status and the time of the change as its update time. Its
/// quantity, its definition and its creation time stay, and where the clock
/// has not run backwards since its creation, it is updated no earlier than
/// it was created. No other user model changes.
pub proof fn law_update_changes_status_only(
    store: StoreView,
    id: u128,
    status: Status,
    now: Seq<char>,
)
    requires
        store.wf(),
        store.has_user_model(id),
    ensures
        user_model_update(store, id, status.wire(), now).1 == Ok::<UserModelView, AppError>(
            UserModelView { status, updated_at: now, ..store.user_model(id) },
        ),
        user_model_update(store, id, status.wire(), now).0.user_model(id) == (UserModelView {
            status,
            updated_at: now,
            ..store.user_model(id)
        }),
        user_model_update(store, id, status.wire(), now).0.user_model(id).quantity
            == store.user_model(id).quantity,
        text_le(store.user_model(id).created_at, now) ==> text_le(
            user_model_update(store, id, status.wire(), now).0.user_model(id).created_at,
            user_model_update(store, id, status.wire(), now).0.user_model(id).updated_at,
        ),
        forall|other: u128|
            other != id && store.has_user_model(other) ==> user_model_update(
                store,
                id,
                status.wire(),
                now,
            ).0.user_model(other) == store.user_model(other),
        user_model_update(store, id, status.wire(), now).0.games == store.games,
        user_model_update(store, id, status.wire(), now).0.definitions == store.definitions,
{
    crate::status::lemma_wire_name_reads_back(status);
    lemma_with_status(store, id, status, now);
}

/// A change of status of a user model that is not there is refused as not
/// found, and the store stays as it is.
pub proof fn law_update_of_unknown_is_not_found(
    store: StoreView,
    id: u128,
    status: Status,
    now: Seq<char>,
)
    requires
        !store.has_user_model(id),
    ensures
        user_model_update(store, id, status.wire(), now) == (
            store,
            Err::<UserModelView, AppError>(
                AppError::of(ErrorKind::NotFound, "user model not found"),
            ),
        ),
{
    crate::status::lemma_wire_name_reads_back(status);
}

/// Each listed user model carries the name of the model definition that it
/// was recorded under and the name of that definition's game.
pub proof fn law_listing_resolves_names(store: StoreView, at: int)
    requires
        store.wf(),
        0 <= at < store.user_models.len(),
    ensures
        listed_user_models(store).len() == store.user_models.len(),
        listed_user_models(store)[at].id == store.user_models[at].id,
        listed_user_models(store)[at].quantity == store.user_models[at].quantity,
        listed_user_models(store)[at].status == store.user_models[at].status,
        store.has_definition(store.user_models[at].model_definition_id),
        listed_user_models(store)[at].model_name == store.definition(
            store.user_models[at].model_definition_id,
        ).name,
        store.has_game(store.definition(store.user_models[at].model_definition_id).game_id),
        listed_user_models(store)[at].game_name == store.game(
            store.definition(store.user_models[at].model_definition_id).game_id,
        ).name,
{
    let model = store.user_models[at];
    assert(store.has_definition(model.model_definition_id));
    let found = choose|found: int| definition_at(
        store.definitions,
        found,
        model.model_definition_id,
    );
    assert(store.has_game(store.definitions[found].game_id));
}

/// A game, a model definition under it and a user model under that, each
/// accepted in its turn, give a listing of user models that holds the user
/// model under the names that the definition and the game were given.
pub proof fn law_listing_matches_names_at_creation(
    store: StoreView,
    game: GameView,
    definition: DefinitionView,
    model: UserModelView,
)
    requires
        store.wf(),
        definition.game_id == game.id,
        model.model_definition_id == definition.id,
        game_creation(store, game.name, game.id, game.created_at).1 is Ok,
        definition_creation(
            game_creation(store, game.name, game.id, game.created_at).0,
            definition.name,
            game.id,
            definition.id,
            definition.created_at,
        ).1 is Ok,
        user_model_creation(
            definition_creation(
                game_creation(store, game.name, game.id, game.created_at).0,
                definition.name,
                game.id,
                definition.id,
                definition.created_at,
            ).0,
            definition.id,
            model.quantity,
            model.status.wire(),
            model.id,
            model.created_at,
        ).1 is Ok,
    ensures
        exists|at: int|
            0 <= at < listed_user_models(
                user_model_creation(
                    definition_creation(
                        game_creation(store, game.name, game.id, game.created_at).0,
                        definition.name,
                        game.id,
                        definition.id,
                        definition.created_at,
                    ).0,
                    definition.id,
                    model.quantity,
                    model.status.wire(),
                    model.id,
                    model.created_at,
                ).0,
            ).len() && #[trigger] listed_user_models(
                user_model_creation(
                    definition_creation(
                        game_creation(store, game.name, game.id, game.created_at).0,
                        definition.name,
                        game.id,
                        definition.id,
                        definition.created_at,
                    ).0,
                    definition.id,
                    model.quantity,
                    model.status.wire(),
                    model.id,
                    model.created_at,
                ).0,
            )[at] == (UserModelListItemView {
                id: model.id,
                model_name: definition.name,
                game_name: game.name,
                quantity: model.quantity,
                status: model.status,
            }),
{
    crate::status::lemma_wire_name_reads_back(model.status);
    let with_game = store.with_game(game);
    lemma_with_game(store, game);
    let with_definition = with_game.with_definition(definition);
    lemma_with_definition(with_game, definition);
    let kept = UserModelView { updated_at: model.created_at, ..model };
    let last = with_definition.with_user_model(kept);
    lemma_with_user_model(with_definition, kept);
    assert(game_creation(store, game.name, game.id, game.created_at).0 == with_game);
    assert(definition_creation(
        with_game,
        definition.name,
        game.id,
        definition.id,
        definition.created_at,
    ).0 == with_definition);
    assert(user_model_creation(
        with_definition,
        definition.id,
        model.quantity,
        model.status.wire(),
        model.id,
        model.created_at,
    ).0 == last);
    let at = choose|at: int| user_model_at(last.user_models, at, model.id);
    assert(last.user_models[at] == kept);
    assert(last.definition(definition.id) == definition);
    assert(last.game(game.id) == game);
    assert(listed_user_models(last)[at] == list_item(last, kept));
}

} // verus!
