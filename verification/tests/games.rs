use mini_tracker::error::ErrorKind;
use mini_tracker::protocol::{Request, Response};
use mini_tracker::records::CreateGame;
use mini_tracker::service::{create_game, create_game_with_id, list_games, serve};
use mini_tracker::store::Store;

fn game_request(name: &str) -> Request {
    Request::CreateGame(CreateGame { name: name.to_string() })
}

#[test]
fn create_game_returns_created() {
    let mut store = Store::new();

    let response = serve(&mut store, game_request("Warhammer"), "2024-05-01 10:00:00");
    assert_eq!(response.status_code(), 201);

    match response {
        Response::GameCreated(game) => {
            assert_eq!(game.name, "Warhammer");
            assert_eq!(game.created_at, "2024-05-01 10:00:00");
        }
        other => panic!("expected a created game, got {:?}", other),
    }
}

#[test]
fn duplicate_game_returns_conflict() {
    let mut store = Store::new();

    let response = serve(&mut store, game_request("Infinity"), "2024-05-01 10:00:00");
    assert_eq!(response.status_code(), 201);

    let response = serve(&mut store, game_request("Infinity"), "2024-05-01 10:00:01");
    assert_eq!(response.status_code(), 409);
}

#[test]
fn list_games_returns_ordered_data() {
    let mut store = Store::new();

    let response = serve(&mut store, game_request("Kill Team"), "2024-05-01 10:00:00");
    assert_eq!(response.status_code(), 201);

    let response = serve(&mut store, game_request("Legion"), "2024-05-01 10:00:00");
    assert_eq!(response.status_code(), 201);

    let response = serve(&mut store, Request::ListGames, "2024-05-01 10:00:01");
    assert_eq!(response.status_code(), 200);

    let list = match response {
        Response::Games(list) => list,
        other => panic!("expected array response, got {:?}", other),
    };

    assert_eq!(list.len(), 2);
    assert_eq!(list[0].name, "Kill Team");
    assert_eq!(list[1].name, "Legion");
}

#[test]
fn duplicate_game_leaves_one_row() {
    let mut store = Store::new();
    let first = CreateGame { name: "Infinity".to_string() };
    let second = CreateGame { name: "Infinity".to_string() };

    let (_, game) = create_game(&mut store, first, "2024-05-01 10:00:00").unwrap();
    let error = create_game(&mut store, second, "2024-05-01 10:00:05").unwrap_err();

    assert_eq!(error.kind, ErrorKind::Conflict);
    assert_eq!(error.message, "game name already exists");
    assert_eq!(error.status_code(), 409);
    assert_eq!(list_games(&mut store).unwrap(), vec![game]);
}

#[test]
fn taken_name_wins_over_taken_identifier() {
    let mut store = Store::new();
    create_game_with_id(&mut store, CreateGame { name: "Infinity".to_string() }, 7, "t1").unwrap();

    let error =
        create_game_with_id(&mut store, CreateGame { name: "Infinity".to_string() }, 7, "t2")
            .unwrap_err();
    assert_eq!(error.kind, ErrorKind::Conflict);
}

#[test]
fn taken_identifier_is_an_internal_error() {
    let mut store = Store::new();
    create_game_with_id(&mut store, CreateGame { name: "Infinity".to_string() }, 7, "t1").unwrap();

    let error = create_game_with_id(&mut store, CreateGame { name: "Malifaux".to_string() }, 7, "t2")
        .unwrap_err();
    assert_eq!(error.kind, ErrorKind::Internal);
    assert_eq!(error.message, "failed to create game");
    assert_eq!(error.status_code(), 500);
    assert_eq!(list_games(&mut store).unwrap().len(), 1);
}

#[test]
fn games_are_listed_by_creation_time() {
    let mut store = Store::new();
    create_game_with_id(&mut store, CreateGame { name: "Late".to_string() }, 1, "2024-05-03 09:00:00")
        .unwrap();
    create_game_with_id(&mut store, CreateGame { name: "Early".to_string() }, 2, "2024-05-01 09:00:00")
        .unwrap();
    create_game_with_id(&mut store, CreateGame { name: "Middle".to_string() }, 3, "2024-05-02 09:00:00")
        .unwrap();
    create_game_with_id(&mut store, CreateGame { name: "Tie".to_string() }, 4, "2024-05-02 09:00:00")
        .unwrap();

    let names: Vec<String> =
        list_games(&mut store).unwrap().into_iter().map(|game| game.name).collect();
    assert_eq!(names, vec!["Early", "Middle", "Tie", "Late"]);
}

#[test]
fn empty_name_is_an_ordinary_name() {
    let mut store = Store::new();
    let (code, game) = create_game(&mut store, CreateGame { name: String::new() }, "t").unwrap();
    assert_eq!(code, 201);
    assert_eq!(game.name, "");

    let error = create_game(&mut store, CreateGame { name: String::new() }, "t").unwrap_err();
    assert_eq!(error.kind, ErrorKind::Conflict);
}

#[test]
fn random_identifiers_differ_and_are_version_four() {
    let mut store = Store::new();
    let (_, first) = create_game(&mut store, CreateGame { name: "A".to_string() }, "t").unwrap();
    let (_, second) = create_game(&mut store, CreateGame { name: "B".to_string() }, "t").unwrap();

    assert_ne!(first.id, second.id);
    for id in [first.id, second.id] {
        assert_eq!((id >> 76) & 0xf, 4);
        assert_eq!((id >> 62) & 0x3, 2);
    }
}

#[test]
fn health_is_ok() {
    let mut store = Store::new();
    assert_eq!(mini_tracker::service::health(), "ok");
    let response = serve(&mut store, Request::Health, "t");
    assert_eq!(response, Response::Health);
    assert_eq!(response.status_code(), 200);
}
