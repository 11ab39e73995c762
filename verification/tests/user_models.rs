use mini_tracker::error::ErrorKind;
use mini_tracker::protocol::{Request, Response};
use mini_tracker::records::{
    CreateGame, CreateModelDefinition, CreateUserModel, UpdateUserModel, UserModelListItem,
};
use mini_tracker::service::{
    create_user_model, create_user_model_with_id, list_user_models, serve, update_user_model,
};
use mini_tracker::status::Status;
use mini_tracker::store::Store;

fn create_game(store: &mut Store, name: &str) -> u128 {
    let request = Request::CreateGame(CreateGame { name: name.to_string() });
    let response = serve(store, request, "2024-05-01 10:00:00");
    assert_eq!(response.status_code(), 201);
    match response {
        Response::GameCreated(game) => game.id,
        other => panic!("missing game id in {:?}", other),
    }
}

fn create_model_definition(store: &mut Store, name: &str, game_id: u128) -> u128 {
    let request =
        Request::CreateModelDefinition(CreateModelDefinition { name: name.to_string(), game_id });
    let response = serve(store, request, "2024-05-01 10:00:01");
    assert_eq!(response.status_code(), 201);
    match response {
        Response::ModelDefinitionCreated(definition) => definition.id,
        other => panic!("missing model definition id in {:?}", other),
    }
}

fn user_model_request(model_definition_id: u128, quantity: i32, status: &str) -> Request {
    Request::CreateUserModel(CreateUserModel {
        model_definition_id,
        quantity,
        status: status.to_string(),
    })
}

#[test]
fn create_user_model_returns_created() {
    let mut store = Store::new();
    let game_id = create_game(&mut store, "Conquest");
    let model_definition_id = create_model_definition(&mut store, "Household Guard", game_id);

    let request = user_model_request(model_definition_id, 10, "unassembled");
    let response = serve(&mut store, request, "2024-05-01 10:00:02");
    assert_eq!(response.status_code(), 201);

    let data = match response {
        Response::UserModelCreated(data) => data,
        other => panic!("expected a created user model, got {:?}", other),
    };

    assert_eq!(data.model_definition_id, model_definition_id);
    assert_eq!(data.quantity, 10);
    assert_eq!(data.status.as_str(), "unassembled");
}

#[test]
fn update_user_model_status() {
    let mut store = Store::new();
    let game_id = create_game(&mut store, "The Old World");
    let model_definition_id = create_model_definition(&mut store, "Empire Knights", game_id);

    let request = user_model_request(model_definition_id, 5, "unassembled");
    let response = serve(&mut store, request, "2024-05-01 10:00:02");
    assert_eq!(response.status_code(), 201);
    let user_model_id = match response {
        Response::UserModelCreated(data) => data.id,
        other => panic!("missing user model id in {:?}", other),
    };

    let request = Request::UpdateUserModel(
        user_model_id,
        UpdateUserModel { status: "painted".to_string() },
    );
    let response = serve(&mut store, request, "2024-05-01 10:00:03");
    assert_eq!(response.status_code(), 200);

    let data = match response {
        Response::UserModelUpdated(data) => data,
        other => panic!("expected an updated user model, got {:?}", other),
    };
    assert_eq!(data.status.as_str(), "painted");
}

#[test]
fn invalid_status_rejected() {
    let mut store = Store::new();
    let game_id = create_game(&mut store, "Malifaux");
    let model_definition_id = create_model_definition(&mut store, "Neverborn", game_id);

    let request = user_model_request(model_definition_id, 3, "broken");
    let response = serve(&mut store, request, "2024-05-01 10:00:02");
    assert_eq!(response.status_code(), 422);
}

#[test]
fn invalid_status_persists_nothing() {
    let mut store = Store::new();
    let game_id = create_game(&mut store, "Malifaux");
    let model_definition_id = create_model_definition(&mut store, "Neverborn", game_id);

    let payload =
        CreateUserModel { model_definition_id, quantity: 3, status: "broken".to_string() };
    let error = create_user_model(&mut store, payload, "2024-05-01 10:00:02").unwrap_err();

    assert_eq!(error.kind, ErrorKind::Validation);
    assert_eq!(error.message, "status must be one of unassembled, assembled, painted");
    assert!(list_user_models(&mut store).unwrap().is_empty());
}

#[test]
fn status_names_are_exact() {
    let mut store = Store::new();
    let game_id = create_game(&mut store, "Malifaux");
    let model_definition_id = create_model_definition(&mut store, "Neverborn", game_id);

    for status in ["Painted", " painted", "painted ", "", "PAINTED"] {
        let response =
            serve(&mut store, user_model_request(model_definition_id, 3, status), "t");
        assert_eq!(response.status_code(), 422);
    }
}

#[test]
fn quantity_must_be_positive() {
    let mut store = Store::new();
    let game_id = create_game(&mut store, "Malifaux");
    let model_definition_id = create_model_definition(&mut store, "Neverborn", game_id);

    for quantity in [0, -1, i32::MIN] {
        let payload =
            CreateUserModel { model_definition_id, quantity, status: "painted".to_string() };
        let error = create_user_model(&mut store, payload, "t").unwrap_err();
        assert_eq!(error.kind, ErrorKind::Validation);
        assert_eq!(error.message, "quantity must be greater than 0");
        assert_eq!(error.status_code(), 422);
    }
    assert!(list_user_models(&mut store).unwrap().is_empty());

    let payload =
        CreateUserModel { model_definition_id, quantity: 1, status: "painted".to_string() };
    assert!(create_user_model(&mut store, payload, "t").is_ok());
}

#[test]
fn invalid_body_is_reported_before_a_missing_definition() {
    let mut store = Store::new();
    let response = serve(&mut store, user_model_request(1, 3, "broken"), "t");
    assert_eq!(response.status_code(), 422);
    let response = serve(&mut store, user_model_request(1, 0, "painted"), "t");
    assert_eq!(response.status_code(), 422);
}

#[test]
fn unknown_definition_returns_not_found() {
    let mut store = Store::new();
    create_game(&mut store, "Malifaux");

    let payload =
        CreateUserModel { model_definition_id: 1, quantity: 3, status: "painted".to_string() };
    let error = create_user_model(&mut store, payload, "t").unwrap_err();

    assert_eq!(error.kind, ErrorKind::NotFound);
    assert_eq!(error.message, "model definition not found");
    assert!(list_user_models(&mut store).unwrap().is_empty());
}

#[test]
fn created_then_painted_keeps_quantity() {
    let mut store = Store::new();
    let game_id = create_game(&mut store, "Conquest");
    let model_definition_id = create_model_definition(&mut store, "Household Guard", game_id);

    let payload = CreateUserModel {
        model_definition_id,
        quantity: 10,
        status: "unassembled".to_string(),
    };
    let (code, created) =
        create_user_model(&mut store, payload, "2024-05-01 10:00:02").unwrap();
    assert_eq!(code, 201);
    assert_eq!(created.model_definition_id, model_definition_id);
    assert_eq!(created.quantity, 10);
    assert_eq!(created.status, Status::Unassembled);
    assert_eq!(created.created_at, "2024-05-01 10:00:02");
    assert_eq!(created.updated_at, created.created_at);

    let payload = UpdateUserModel { status: "painted".to_string() };
    let updated =
        update_user_model(&mut store, created.id, payload, "2024-05-01 10:00:09").unwrap();
    assert_eq!(updated.id, created.id);
    assert_eq!(updated.status, Status::Painted);
    assert_eq!(updated.quantity, 10);
    assert_eq!(updated.model_definition_id, model_definition_id);
    assert_eq!(updated.created_at, "2024-05-01 10:00:02");
    assert_eq!(updated.updated_at, "2024-05-01 10:00:09");
    assert!(updated.updated_at >= updated.created_at);
}

#[test]
fn any_status_may_follow_any_other() {
    let mut store = Store::new();
    let game_id = create_game(&mut store, "Conquest");
    let model_definition_id = create_model_definition(&mut store, "Household Guard", game_id);
    let payload =
        CreateUserModel { model_definition_id, quantity: 2, status: "painted".to_string() };
    let (_, created) = create_user_model(&mut store, payload, "t0").unwrap();

    for status in ["unassembled", "painted", "assembled", "assembled", "unassembled"] {
        let payload = UpdateUserModel { status: status.to_string() };
        let updated = update_user_model(&mut store, created.id, payload, "t1").unwrap();
        assert_eq!(updated.status.as_str(), status);
    }
}

#[test]
fn update_of_unknown_user_model_returns_not_found() {
    let mut store = Store::new();

    let request =
        Request::UpdateUserModel(77, UpdateUserModel { status: "painted".to_string() });
    let response = serve(&mut store, request, "t");
    assert_eq!(response.status_code(), 404);

    let payload = UpdateUserModel { status: "painted".to_string() };
    let error = update_user_model(&mut store, 77, payload, "t").unwrap_err();
    assert_eq!(error.kind, ErrorKind::NotFound);
    assert_eq!(error.message, "user model not found");
}

#[test]
fn update_with_invalid_status_is_rejected() {
    let mut store = Store::new();
    let game_id = create_game(&mut store, "Conquest");
    let model_definition_id = create_model_definition(&mut store, "Household Guard", game_id);
    let payload =
        CreateUserModel { model_definition_id, quantity: 2, status: "painted".to_string() };
    let (_, created) = create_user_model(&mut store, payload, "t0").unwrap();

    let payload = UpdateUserModel { status: "broken".to_string() };
    let error = update_user_model(&mut store, created.id, payload, "t1").unwrap_err();
    assert_eq!(error.kind, ErrorKind::Validation);
    assert_eq!(error.status_code(), 422);

    let listed = list_user_models(&mut store).unwrap();
    assert_eq!(listed[0].status, Status::Painted);
}

#[test]
fn listing_resolves_model_and_game_names() {
    let mut store = Store::new();
    let conquest = create_game(&mut store, "Conquest");
    let old_world = create_game(&mut store, "The Old World");
    let guard = create_model_definition(&mut store, "Household Guard", conquest);
    let knights = create_model_definition(&mut store, "Empire Knights", old_world);

    let first = CreateUserModel {
        model_definition_id: knights,
        quantity: 5,
        status: "assembled".to_string(),
    };
    let second = CreateUserModel {
        model_definition_id: guard,
        quantity: 10,
        status: "unassembled".to_string(),
    };
    create_user_model_with_id(&mut store, first, 100, "2024-05-01 10:00:02").unwrap();
    create_user_model_with_id(&mut store, second, 200, "2024-05-01 10:00:03").unwrap();

    let response = serve(&mut store, Request::ListUserModels, "t");
    assert_eq!(response.status_code(), 200);
    let listed = match response {
        Response::UserModels(listed) => listed,
        other => panic!("expected array response, got {:?}", other),
    };

    assert_eq!(
        listed,
        vec![
            UserModelListItem {
                id: 100,
                model_name: "Empire Knights".to_string(),
                game_name: "The Old World".to_string(),
                quantity: 5,
                status: Status::Assembled,
            },
            UserModelListItem {
                id: 200,
                model_name: "Household Guard".to_string(),
                game_name: "Conquest".to_string(),
                quantity: 10,
                status: Status::Unassembled,
            },
        ]
    );
}

#[test]
fn update_touches_one_user_model_only() {
    let mut store = Store::new();
    let game_id = create_game(&mut store, "Conquest");
    let model_definition_id = create_model_definition(&mut store, "Household Guard", game_id);
    for id in [1u128, 2u128] {
        let payload = CreateUserModel {
            model_definition_id,
            quantity: 4,
            status: "unassembled".to_string(),
        };
        create_user_model_with_id(&mut store, payload, id, "t0").unwrap();
    }

    let payload = UpdateUserModel { status: "painted".to_string() };
    update_user_model(&mut store, 2, payload, "t1").unwrap();

    let listed = list_user_models(&mut store).unwrap();
    assert_eq!(listed[0].id, 1);
    assert_eq!(listed[0].status, Status::Unassembled);
    assert_eq!(listed[1].id, 2);
    assert_eq!(listed[1].status, Status::Painted);
}
