use mini_tracker::error::ErrorKind;
use mini_tracker::protocol::{Request, Response};
use mini_tracker::records::{CreateGame, CreateModelDefinition};
use mini_tracker::service::{
    create_model_definition, create_model_definition_with_id, list_model_definitions, serve,
};
use mini_tracker::store::Store;
use uuid::Uuid;

fn create_game(store: &mut Store, name: &str) -> u128 {
    let request = Request::CreateGame(CreateGame { name: name.to_string() });
    let response = serve(store, request, "2024-05-01 10:00:00");
    assert_eq!(response.status_code(), 201);
    match response {
        Response::GameCreated(game) => game.id,
        other => panic!("missing game id in {:?}", other),
    }
}

fn definition_request(name: &str, game_id: u128) -> Request {
    Request::CreateModelDefinition(CreateModelDefinition { name: name.to_string(), game_id })
}

#[test]
fn invalid_game_id_returns_not_found() {
    let mut store = Store::new();

    let request = definition_request("Stormcast", Uuid::new_v4().as_u128());
    let response = serve(&mut store, request, "2024-05-01 10:00:01");
    assert_eq!(response.status_code(), 404);
}

#[test]
fn create_model_definition_returns_created() {
    let mut store = Store::new();
    let game_id = create_game(&mut store, "Age of Sigmar");

    let response =
        serve(&mut store, definition_request("Stormcast", game_id), "2024-05-01 10:00:01");
    assert_eq!(response.status_code(), 201);

    let data = match response {
        Response::ModelDefinitionCreated(data) => data,
        other => panic!("expected a created model definition, got {:?}", other),
    };

    assert_eq!(data.name, "Stormcast");
    assert_eq!(data.game.id, game_id);
    assert_eq!(data.game.name, "Age of Sigmar");
}

#[test]
fn list_model_definitions_includes_game_info() {
    let mut store = Store::new();
    let game_id = create_game(&mut store, "Star Wars Legion");

    let response =
        serve(&mut store, definition_request("Clone Troopers", game_id), "2024-05-01 10:00:01");
    assert_eq!(response.status_code(), 201);

    let response = serve(&mut store, Request::ListModelDefinitions, "2024-05-01 10:00:02");
    assert_eq!(response.status_code(), 200);

    let list = match response {
        Response::ModelDefinitions(list) => list,
        other => panic!("expected array response, got {:?}", other),
    };

    assert_eq!(list.len(), 1);
    assert_eq!(list[0].name, "Clone Troopers");
    assert_eq!(list[0].game.id, game_id);
    assert_eq!(list[0].game.name, "Star Wars Legion");
}

#[test]
fn unknown_game_persists_nothing() {
    let mut store = Store::new();
    create_game(&mut store, "Age of Sigmar");

    let payload = CreateModelDefinition { name: "Stormcast".to_string(), game_id: 42 };
    let error = create_model_definition(&mut store, payload, "2024-05-01 10:00:01").unwrap_err();

    assert_eq!(error.kind, ErrorKind::NotFound);
    assert_eq!(error.message, "game not found");
    assert_eq!(error.status_code(), 404);
    assert!(list_model_definitions(&mut store).unwrap().is_empty());
}

#[test]
fn same_name_under_one_game_is_allowed_twice() {
    let mut store = Store::new();
    let game_id = create_game(&mut store, "Age of Sigmar");

    for id in [1u128, 2u128] {
        let payload = CreateModelDefinition { name: "Stormcast".to_string(), game_id };
        let (code, definition) =
            create_model_definition_with_id(&mut store, payload, id, "2024-05-01 10:00:01").unwrap();
        assert_eq!(code, 201);
        assert_eq!(definition.id, id);
    }

    let listed = list_model_definitions(&mut store).unwrap();
    assert_eq!(listed.len(), 2);
    assert_eq!(listed[0].id, 1);
    assert_eq!(listed[1].id, 2);
}

#[test]
fn taken_definition_identifier_is_an_internal_error() {
    let mut store = Store::new();
    let game_id = create_game(&mut store, "Age of Sigmar");
    let first = CreateModelDefinition { name: "Stormcast".to_string(), game_id };
    let second = CreateModelDefinition { name: "Skaven".to_string(), game_id };
    create_model_definition_with_id(&mut store, first, 9, "t").unwrap();

    let error = create_model_definition_with_id(&mut store, second, 9, "t").unwrap_err();
    assert_eq!(error.kind, ErrorKind::Internal);
    assert_eq!(error.message, "failed to create model definition");
    assert_eq!(list_model_definitions(&mut store).unwrap().len(), 1);
}

#[test]
fn definitions_are_listed_by_creation_time() {
    let mut store = Store::new();
    let game_id = create_game(&mut store, "Age of Sigmar");
    let late = CreateModelDefinition { name: "Late".to_string(), game_id };
    let early = CreateModelDefinition { name: "Early".to_string(), game_id };
    create_model_definition_with_id(&mut store, late, 1, "2024-05-02 00:00:00").unwrap();
    create_model_definition_with_id(&mut store, early, 2, "2024-05-01 00:00:00").unwrap();

    let names: Vec<String> = list_model_definitions(&mut store)
        .unwrap()
        .into_iter()
        .map(|definition| definition.name)
        .collect();
    assert_eq!(names, vec!["Early", "Late"]);
}
