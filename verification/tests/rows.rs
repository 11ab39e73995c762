use mini_tracker::error::{AppError, ErrorKind};
use mini_tracker::records::{Game, GameSummary, ModelDefinition, UserModel, UserModelListItem};
use mini_tracker::rows::{
    definition_from_list_row, definition_from_rows, definitions_from_rows, game_from_row,
    games_from_rows, list_item_from_row, list_items_from_rows, parse_i32, parse_status,
    parse_uuid, stored_id, user_model_from_row, GameRow, ModelDefinitionListRow, ModelDefinitionRow,
    UserModelListRow, UserModelRow,
};
use mini_tracker::status::Status;

const ID: u128 = 0x550e8400_e29b_41d4_a716_446655440000;
const ID_TEXT: &str = "550e8400-e29b-41d4-a716-446655440000";
const OTHER: u128 = 0x936da01f_9abd_4d9d_80c7_02af85c822a8;
const OTHER_TEXT: &str = "936da01f-9abd-4d9d-80c7-02af85c822a8";

fn invalid_id() -> AppError {
    AppError { kind: ErrorKind::Internal, message: "invalid id stored in database" }
}

fn invalid_status() -> AppError {
    AppError { kind: ErrorKind::Internal, message: "invalid status stored in database" }
}

fn invalid_quantity() -> AppError {
    AppError { kind: ErrorKind::Internal, message: "invalid quantity stored in database" }
}

fn game_row(id: &str, name: &str) -> GameRow {
    GameRow {
        id: id.to_string(),
        name: name.to_string(),
        created_at: "2024-05-01 10:00:00".to_string(),
    }
}

fn user_model_row(id: &str, definition: &str, quantity: i64, status: &str) -> UserModelRow {
    UserModelRow {
        id: id.to_string(),
        model_definition_id: definition.to_string(),
        quantity,
        status: status.to_string(),
        created_at: "2024-05-01 10:00:00".to_string(),
        updated_at: "2024-05-02 10:00:00".to_string(),
    }
}

fn list_row(id: &str, quantity: i64, status: &str) -> UserModelListRow {
    UserModelListRow {
        id: id.to_string(),
        model_name: "Empire Knights".to_string(),
        game_name: "The Old World".to_string(),
        quantity,
        status: status.to_string(),
    }
}

#[test]
fn parse_uuid_reads_the_hyphenated_form() {
    assert_eq!(parse_uuid(ID_TEXT.to_string()), Ok(ID));
    assert_eq!(parse_uuid(OTHER_TEXT.to_string()), Ok(OTHER));
    assert_eq!(parse_uuid("00000000-0000-0000-0000-000000000000".to_string()), Ok(0));
    assert_eq!(parse_uuid("ffffffff-ffff-ffff-ffff-ffffffffffff".to_string()), Ok(u128::MAX));
}

#[test]
fn parse_uuid_reads_the_other_forms_of_a_uuid() {
    assert_eq!(parse_uuid("550e8400e29b41d4a716446655440000".to_string()), Ok(ID));
    assert_eq!(parse_uuid("550E8400-E29B-41D4-A716-446655440000".to_string()), Ok(ID));
    assert_eq!(parse_uuid("{550e8400-e29b-41d4-a716-446655440000}".to_string()), Ok(ID));
    assert_eq!(
        parse_uuid("urn:uuid:550e8400-e29b-41d4-a716-446655440000".to_string()),
        Ok(ID)
    );
}

#[test]
fn parse_uuid_refuses_what_is_no_uuid() {
    for text in [
        "",
        "not-a-uuid",
        "550e8400-e29b-41d4-a716-44665544000",
        "550e8400-e29b-41d4-a716-4466554400000",
        "550e8400-e29b-41d4-a716-44665544000g",
        "550e8400e29b-41d4-a716-446655440000-",
        " 550e8400-e29b-41d4-a716-446655440000",
    ] {
        assert_eq!(parse_uuid(text.to_string()), Err(invalid_id()));
    }
}

#[test]
fn parse_status_reads_the_three_names() {
    assert_eq!(parse_status("unassembled"), Ok(Status::Unassembled));
    assert_eq!(parse_status("assembled"), Ok(Status::Assembled));
    assert_eq!(parse_status("painted"), Ok(Status::Painted));
}

#[test]
fn parse_status_refuses_other_texts() {
    for text in ["broken", "", "Painted"] {
        assert_eq!(parse_status(text), Err(invalid_status()));
    }
}

#[test]
fn parse_i32_keeps_what_fits() {
    assert_eq!(parse_i32(0), Ok(0));
    assert_eq!(parse_i32(10), Ok(10));
    assert_eq!(parse_i32(-3), Ok(-3));
    assert_eq!(parse_i32(2_147_483_647), Ok(i32::MAX));
    assert_eq!(parse_i32(-2_147_483_648), Ok(i32::MIN));
}

#[test]
fn parse_i32_refuses_what_does_not_fit() {
    for value in [2_147_483_648, -2_147_483_649, i64::MAX, i64::MIN] {
        assert_eq!(parse_i32(value), Err(invalid_quantity()));
    }
}

#[test]
fn a_game_row_becomes_a_game() {
    assert_eq!(
        game_from_row(&game_row(ID_TEXT, "Warhammer")),
        Ok(Game {
            id: ID,
            name: "Warhammer".to_string(),
            created_at: "2024-05-01 10:00:00".to_string(),
        })
    );
    assert_eq!(game_from_row(&game_row("x", "Warhammer")), Err(invalid_id()));
}

#[test]
fn a_definition_row_takes_its_game_from_the_game_row() {
    let row = ModelDefinitionRow {
        id: ID_TEXT.to_string(),
        name: "Stormcast".to_string(),
        game_id: "ignored".to_string(),
    };
    assert_eq!(
        definition_from_rows(&row, &game_row(OTHER_TEXT, "Age of Sigmar")),
        Ok(ModelDefinition {
            id: ID,
            name: "Stormcast".to_string(),
            game: GameSummary { id: OTHER, name: "Age of Sigmar".to_string() },
        })
    );
    assert_eq!(definition_from_rows(&row, &game_row("x", "Age of Sigmar")), Err(invalid_id()));
}

#[test]
fn a_joined_definition_row_becomes_a_definition() {
    let row = ModelDefinitionListRow {
        id: ID_TEXT.to_string(),
        name: "Clone Troopers".to_string(),
        game_id: OTHER_TEXT.to_string(),
        game_name: "Star Wars Legion".to_string(),
    };
    assert_eq!(
        definition_from_list_row(&row),
        Ok(ModelDefinition {
            id: ID,
            name: "Clone Troopers".to_string(),
            game: GameSummary { id: OTHER, name: "Star Wars Legion".to_string() },
        })
    );
    let broken = ModelDefinitionListRow { game_id: "x".to_string(), ..row };
    assert_eq!(definition_from_list_row(&broken), Err(invalid_id()));
}

#[test]
fn a_user_model_row_becomes_a_user_model() {
    assert_eq!(
        user_model_from_row(&user_model_row(ID_TEXT, OTHER_TEXT, 10, "painted")),
        Ok(UserModel {
            id: ID,
            model_definition_id: OTHER,
            quantity: 10,
            status: Status::Painted,
            created_at: "2024-05-01 10:00:00".to_string(),
            updated_at: "2024-05-02 10:00:00".to_string(),
        })
    );
}

#[test]
fn a_user_model_row_fails_on_its_first_fault() {
    assert_eq!(
        user_model_from_row(&user_model_row("x", "y", i64::MAX, "broken")),
        Err(invalid_status())
    );
    assert_eq!(
        user_model_from_row(&user_model_row("x", "y", i64::MAX, "painted")),
        Err(invalid_id())
    );
    assert_eq!(
        user_model_from_row(&user_model_row(ID_TEXT, "y", i64::MAX, "painted")),
        Err(invalid_id())
    );
    assert_eq!(
        user_model_from_row(&user_model_row(ID_TEXT, OTHER_TEXT, i64::MAX, "painted")),
        Err(invalid_quantity())
    );
}

#[test]
fn a_joined_user_model_row_becomes_a_list_item() {
    assert_eq!(
        list_item_from_row(&list_row(ID_TEXT, 5, "assembled")),
        Ok(UserModelListItem {
            id: ID,
            model_name: "Empire Knights".to_string(),
            game_name: "The Old World".to_string(),
            quantity: 5,
            status: Status::Assembled,
        })
    );
    assert_eq!(list_item_from_row(&list_row("x", 1 << 40, "broken")), Err(invalid_status()));
    assert_eq!(list_item_from_row(&list_row("x", 1 << 40, "painted")), Err(invalid_id()));
    assert_eq!(list_item_from_row(&list_row(ID_TEXT, 1 << 40, "painted")), Err(invalid_quantity()));
}

#[test]
fn rows_are_read_in_order() {
    let rows = vec![game_row(ID_TEXT, "Kill Team"), game_row(OTHER_TEXT, "Legion")];
    let games = games_from_rows(&rows).unwrap();
    assert_eq!(games.len(), 2);
    assert_eq!((games[0].id, games[0].name.as_str()), (ID, "Kill Team"));
    assert_eq!((games[1].id, games[1].name.as_str()), (OTHER, "Legion"));
    assert_eq!(games_from_rows(&Vec::new()), Ok(Vec::new()));
}

#[test]
fn one_unreadable_row_fails_the_listing() {
    let rows = vec![game_row(ID_TEXT, "Kill Team"), game_row("x", "Legion")];
    assert_eq!(games_from_rows(&rows), Err(invalid_id()));

    let rows = vec![ModelDefinitionListRow {
        id: "x".to_string(),
        name: "Clone Troopers".to_string(),
        game_id: OTHER_TEXT.to_string(),
        game_name: "Star Wars Legion".to_string(),
    }];
    assert_eq!(definitions_from_rows(&rows), Err(invalid_id()));
}

#[test]
fn the_first_unreadable_row_gives_the_error() {
    let rows = vec![
        list_row(ID_TEXT, 1, "painted"),
        list_row(ID_TEXT, 1 << 40, "painted"),
        list_row(ID_TEXT, 1, "broken"),
    ];
    assert_eq!(list_items_from_rows(&rows), Err(invalid_quantity()));

    let rows = vec![list_row(ID_TEXT, 1, "broken"), list_row("x", 1, "painted")];
    assert_eq!(list_items_from_rows(&rows), Err(invalid_status()));

    let rows = vec![list_row(ID_TEXT, 1, "painted"), list_row(OTHER_TEXT, 2, "assembled")];
    let items = list_items_from_rows(&rows).unwrap();
    assert_eq!(items.len(), 2);
    assert_eq!(items[1].id, OTHER);
    assert_eq!(items[1].quantity, 2);
}

#[test]
fn an_identifier_that_was_read_is_kept() {
    assert_eq!(stored_id(Some(ID)), Ok(ID));
    assert_eq!(stored_id(Some(0)), Ok(0));
    assert_eq!(stored_id(None), Err(invalid_id()));
}
